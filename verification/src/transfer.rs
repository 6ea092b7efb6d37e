//! The transfer message of a cw20 token contract, as the vault sends it.
//!
//! The bytes come from `cosmwasm_std` and `cw20`; the contracts in this file
//! are assumed, not proved.

use vstd::prelude::*;

verus! {

/// The JSON text of the cw20 message `Transfer { recipient, amount }`, as
/// `cosmwasm_std::to_json_binary` writes it; `None` where it reports an error.
pub uninterp spec fn cw20_transfer_json(recipient: Seq<char>, amount: u128) -> Option<Seq<u8>>;

/// Calls `cosmwasm_std::to_json_binary` on `cw20::Cw20ExecuteMsg::Transfer`
/// with the given recipient and amount. Assumed: the outcome depends on the
/// two arguments alone, so that it is [`cw20_transfer_json`] of them.
#[verifier::external_body]
pub(crate) fn encode_cw20_transfer(recipient: &String, amount: u128) -> (encoded: Result<
    Vec<u8>,
    cosmwasm_std::StdError,
>)
    ensures
        match encoded {
            Ok(bytes) => cw20_transfer_json(recipient@, amount) == Some(bytes@),
            Err(_) => cw20_transfer_json(recipient@, amount) is None,
        },
{
    let transfer = cw20::Cw20ExecuteMsg::Transfer {
        recipient: recipient.clone(),
        amount: cosmwasm_std::Uint128::new(amount),
    };
    match cosmwasm_std::to_json_binary(&transfer) {
        Ok(binary) => Ok(binary.to_vec()),
        Err(e) => Err(e),
    }
}

} // verus!

//! What an operation hands back: diagnostic attributes and the instructions
//! that it emits for token contracts.

use vstd::prelude::*;

verus! {

/// A key and a value attached to a response for observers.
#[derive(Debug, Clone, PartialEq, Eq)]
pub struct Attribute {
    pub key: String,
    pub value: String,
}

impl View for Attribute {
    type V = (Seq<char>, Seq<char>);

    open spec fn view(&self) -> (Seq<char>, Seq<char>) {
        (self.key@, self.value@)
    }
}

/// An instruction for the token contract at `contract_addr` to move `amount`
/// of its token to `recipient`. `msg` is the instruction as that contract
/// reads it.
#[derive(Debug, Clone, PartialEq, Eq)]
pub struct TokenTransfer {
    pub contract_addr: String,
    pub recipient: String,
    pub amount: u128,
    pub msg: Vec<u8>,
}

/// The model of a [`TokenTransfer`].
pub struct TokenTransferView {
    pub contract_addr: Seq<char>,
    pub recipient: Seq<char>,
    pub amount: int,
    pub msg: Seq<u8>,
}

impl View for TokenTransfer {
    type V = TokenTransferView;

    open spec fn view(&self) -> TokenTransferView {
        TokenTransferView {
            contract_addr: self.contract_addr@,
            recipient: self.recipient@,
            amount: self.amount as int,
            msg: self.msg@,
        }
    }
}

/// The result of a successful operation.
#[derive(Debug, Clone, PartialEq, Eq)]
pub struct Response {
    pub messages: Vec<TokenTransfer>,
    pub attributes: Vec<Attribute>,
}

/// The model of a [`Response`].
pub struct ResponseView {
    pub messages: Seq<TokenTransferView>,
    pub attributes: Seq<(Seq<char>, Seq<char>)>,
}

impl View for Response {
    type V = ResponseView;

    open spec fn view(&self) -> ResponseView {
        ResponseView {
            messages: Seq::new(self.messages@.len(), |i: int| self.messages@[i]@),
            attributes: Seq::new(self.attributes@.len(), |i: int| self.attributes@[i]@),
        }
    }
}

/// The model of a response without messages and attributes.
pub open spec fn empty_response() -> ResponseView {
    ResponseView { messages: Seq::empty(), attributes: Seq::empty() }
}

impl Response {
    /// A response without messages and attributes.
    pub fn new() -> (response: Self)
        ensures
            response@ == empty_response(),
    {
        let response = Response { messages: Vec::new(), attributes: Vec::new() };
        assert(response@.messages =~= Seq::empty());
        assert(response@.attributes =~= Seq::empty());
        response
    }

    /// The response with one more attribute at the end.
    pub fn add_attribute(self, key: &str, value: &str) -> (response: Self)
        ensures
            response@ == (ResponseView {
                attributes: self@.attributes.push((key@, value@)),
                ..self@
            }),
    {
        let mut response = self;
        response.attributes.push(Attribute { key: key.to_owned(), value: value.to_owned() });
        assert(response@.attributes =~= self@.attributes.push((key@, value@)));
        assert(response@.messages =~= self@.messages);
        response
    }

    /// The response with one more message at the end.
    pub fn add_message(self, message: TokenTransfer) -> (response: Self)
        ensures
            response@ == (ResponseView { messages: self@.messages.push(message@), ..self@ }),
    {
        let mut response = self;
        response.messages.push(message);
        assert(response@.messages =~= self@.messages.push(message@));
        assert(response@.attributes =~= self@.attributes);
        response
    }
}

} // verus!

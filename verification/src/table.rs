//! Keyed balance tables: the store that the registry and the ledger rest on.
//!
//! A table maps a key to an amount and tells an absent row from a row that
//! holds zero. Its mathematical model is a finite map from the key's model to
//! an integer; every amount it holds fits in 128 bits.

use vstd::prelude::*;

verus! {

/// A value that can key a balance table.
pub trait TableKey: Sized {
    /// The mathematical value that the key stands for.
    type Model;

    spec fn model(&self) -> Self::Model;

    /// Tells whether two keys stand for the same value.
    fn same_as(&self, other: &Self) -> (same: bool)
        ensures
            same == (self.model() == other.model()),
    ;
}

impl TableKey for String {
    type Model = Seq<char>;

    open spec fn model(&self) -> Seq<char> {
        self@
    }

    fn same_as(&self, other: &Self) -> (same: bool) {
        *self == *other
    }
}

impl TableKey for (String, String) {
    type Model = (Seq<char>, Seq<char>);

    open spec fn model(&self) -> (Seq<char>, Seq<char>) {
        (self.0@, self.1@)
    }

    fn same_as(&self, other: &Self) -> (same: bool) {
        self.0 == other.0 && self.1 == other.1
    }
}

/// The amount that a table's model holds under `key`: zero where the row is
/// absent.
pub open spec fn balance_of<M>(table: Map<M, int>, key: M) -> int {
    if table.contains_key(key) {
        table[key]
    } else {
        0
    }
}

/// Every amount of the model lies between zero and the largest 128-bit value.
pub open spec fn amounts_fit<M>(table: Map<M, int>) -> bool {
    forall|key: M| #[trigger] table.contains_key(key) ==> 0 <= table[key] <= u128::MAX
}

/// A table of amounts, one row per key.
pub struct Table<K: TableKey> {
    entries: Vec<(K, u128)>,
}

/// `rows` holds a row for `key`.
spec fn has_row<K: TableKey>(rows: Seq<(K, u128)>, key: K::Model) -> bool {
    exists|i: int| 0 <= i < rows.len() && (#[trigger] rows[i]).0.model() == key
}

/// The place of the row for `key` in `rows`, where there is one.
spec fn row_of<K: TableKey>(rows: Seq<(K, u128)>, key: K::Model) -> int {
    choose|i: int| 0 <= i < rows.len() && (#[trigger] rows[i]).0.model() == key
}

/// No two rows of `rows` share a key.
spec fn distinct_keys<K: TableKey>(rows: Seq<(K, u128)>) -> bool {
    forall|i: int, j: int|
        0 <= i < j < rows.len() ==> (#[trigger] rows[i]).0.model() != (#[trigger] rows[j]).0.model()
}

/// The map that `rows` stands for.
spec fn rows_map<K: TableKey>(rows: Seq<(K, u128)>) -> Map<K::Model, int> {
    Map::new(
        |key: K::Model| has_row(rows, key),
        |key: K::Model| rows[row_of(rows, key)].1 as int,
    )
}

/// With distinct keys, the row at `i` is the one that the map reads for its key.
proof fn lemma_row_is_read<K: TableKey>(rows: Seq<(K, u128)>, i: int)
    requires
        distinct_keys(rows),
        0 <= i < rows.len(),
    ensures
        has_row(rows, rows[i].0.model()),
        row_of(rows, rows[i].0.model()) == i,
        rows_map(rows)[rows[i].0.model()] == rows[i].1,
{
    let key = rows[i].0.model();
    assert(has_row(rows, key));
    let j = row_of(rows, key);
    assert(0 <= j < rows.len() && rows[j].0.model() == key);
    if j != i {
        if j < i {
            assert(rows[j].0.model() != rows[i].0.model());
        } else {
            assert(rows[i].0.model() != rows[j].0.model());
        }
    }
}

impl<K: TableKey> Table<K> {
    #[verifier::type_invariant]
    spec fn well_formed(self) -> bool {
        distinct_keys(self.entries@)
    }

    /// The table as a map from key to amount.
    pub closed spec fn view(&self) -> Map<K::Model, int> {
        rows_map(self.entries@)
    }

    /// Every amount in a table fits in 128 bits.
    pub proof fn lemma_amounts_fit(&self)
        ensures
            amounts_fit(self@),
    {
    }

    /// A table without rows.
    pub fn new() -> (table: Self)
        ensures
            table@ == Map::<K::Model, int>::empty(),
    {
        let table = Table { entries: Vec::new() };
        assert(table@ =~= Map::<K::Model, int>::empty());
        table
    }

    /// The place of the row for `key`, if the table has one.
    fn position(&self, key: &K) -> (found: Option<usize>)
        ensures
            match found {
                Some(i) => i < self.entries@.len() && self.entries@[i as int].0.model()
                    == key.model(),
                None => !has_row(self.entries@, key.model()),
            },
    {
        let mut i: usize = 0;
        while i < self.entries.len()
            invariant
                i <= self.entries@.len(),
                forall|j: int| 0 <= j < i ==> (#[trigger] self.entries@[j]).0.model() != key.model(),
            decreases self.entries@.len() - i,
        {
            if self.entries[i].0.same_as(key) {
                return Some(i);
            }
            i += 1;
        }
        None
    }

    /// The amount stored under `key`, or `None` where the table has no row
    /// for it.
    pub fn may_load(&self, key: &K) -> (found: Option<u128>)
        ensures
            match found {
                Some(amount) => self@.contains_key(key.model()) && self@[key.model()] == amount,
                None => !self@.contains_key(key.model()),
            },
    {
        proof {
            use_type_invariant(self);
        }
        match self.position(key) {
            Some(i) => {
                proof {
                    lemma_row_is_read(self.entries@, i as int);
                }
                Some(self.entries[i].1)
            },
            None => None,
        }
    }

    /// The amount stored under `key`, with an absent row read as zero.
    pub fn balance(&self, key: &K) -> (amount: u128)
        ensures
            amount == balance_of(self@, key.model()),
    {
        match self.may_load(key) {
            Some(amount) => amount,
            None => 0,
        }
    }

    /// Stores `amount` under `key`, in place of what the table held there.
    pub fn save(&mut self, key: K, amount: u128)
        ensures
            final(self)@ == old(self)@.insert(key.model(), amount as int),
    {
        proof {
            use_type_invariant(&*self);
        }
        let found = self.position(&key);
        let mut entries: Vec<(K, u128)> = Vec::new();
        std::mem::swap(&mut entries, &mut self.entries);
        let ghost before = entries@;
        let ghost model = key.model();
        match found {
            Some(i) => {
                entries.set(i, (key, amount));
            },
            None => {
                entries.push((key, amount));
            },
        }
        proof {
            let after = entries@;
            assert(distinct_keys(after));
            assert forall|k: K::Model| has_row(after, k) <==> (k == model || has_row(before, k)) by {
                if has_row(after, k) {
                    let j = row_of(after, k);
                    if after[j].0.model() != model {
                        assert(before[j].0.model() == k);
                    }
                }
                if has_row(before, k) {
                    let j = row_of(before, k);
                    if k != model {
                        assert(after[j].0.model() == k);
                    }
                }
                if k == model {
                    match found {
                        Some(i) => {
                            assert(after[i as int].0.model() == k);
                        },
                        None => {
                            assert(after[before.len() as int].0.model() == k);
                        },
                    }
                }
            }
            assert forall|k: K::Model| has_row(after, k) implies rows_map(after)[k] == (if k
                == model {
                amount as int
            } else {
                rows_map(before)[k]
            }) by {
                let j = row_of(after, k);
                lemma_row_is_read(after, j);
                if k != model {
                    assert(before[j].0.model() == k);
                    lemma_row_is_read(before, j);
                }
            }
            assert(rows_map(after) =~= rows_map(before).insert(model, amount as int));
        }
        self.entries = entries;
    }
}

} // verus!

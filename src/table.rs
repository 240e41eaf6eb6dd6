use vstd::prelude::*;
use crate::currency::{Currency, FxCode};
use crate::instrument::{CreditRating, Id, InstType, IssuerType};

verus! {

/// A key type whose equality can be tested in executable code.
pub trait TableKey: Copy + Sized {
    fn same(&self, other: &Self) -> (r: bool)
        ensures
            r == (*self == *other);
}

impl TableKey for Id {
    fn same(&self, other: &Self) -> (r: bool) {
        *self == *other
    }
}

impl TableKey for Currency {
    fn same(&self, other: &Self) -> (r: bool) {
        *self == *other
    }
}

impl TableKey for FxCode {
    fn same(&self, other: &Self) -> (r: bool) {
        *self == *other
    }
}

impl TableKey for InstType {
    fn same(&self, other: &Self) -> (r: bool) {
        *self == *other
    }
}

/// Whether `v` holds `k`.
pub fn vec_contains<K: TableKey>(v: &Vec<K>, k: &K) -> (r: bool)
    ensures
        r == v@.contains(*k),
{
    let mut i: usize = 0;
    while i < v.len()
        invariant
            i <= v@.len(),
            forall|j: int| 0 <= j < i ==> v@[j] != *k,
        decreases v@.len() - i,
    {
        if v[i].same(k) {
            return true;
        }
        i = i + 1;
    }
    false
}

/// Whether `a` and `b` hold the same keys in the same order.
pub fn vec_equal<K: TableKey>(a: &Vec<K>, b: &Vec<K>) -> (r: bool)
    ensures
        r == (a@ == b@),
{
    if a.len() != b.len() {
        return false;
    }
    let mut i: usize = 0;
    while i < a.len()
        invariant
            a@.len() == b@.len(),
            i <= a@.len(),
            forall|j: int| 0 <= j < i ==> a@[j] == b@[j],
        decreases a@.len() - i,
    {
        if !a[i].same(&b[i]) {
            return false;
        }
        i = i + 1;
    }
    assert(a@ =~= b@);
    true
}

/// The key of the bond discount table.
#[derive(Debug, Clone, Copy, PartialEq, Eq, Structural, Hash)]
pub struct BondCurveKey {
    pub issuer_id: Id,
    pub issuer_type: IssuerType,
    pub credit_rating: CreditRating,
    pub currency: Currency,
}

impl TableKey for BondCurveKey {
    fn same(&self, other: &Self) -> (r: bool) {
        *self == *other
    }
}

/// The key of the quanto correlation table: an underlying and an FX pair.
#[derive(Debug, Clone, Copy, PartialEq, Eq, Structural, Hash)]
pub struct QuantoKey {
    pub underlying_id: Id,
    pub fx_code: FxCode,
}

impl TableKey for QuantoKey {
    fn same(&self, other: &Self) -> (r: bool) {
        *self == *other
    }
}

/// What a table holds for `k`: the value of the first entry with that key.
pub open spec fn table_get<K, V>(s: Seq<(K, V)>, k: K) -> Option<V>
    decreases s.len(),
{
    if s.len() == 0 {
        None
    } else if s[0].0 == k {
        Some(s[0].1)
    } else {
        table_get(s.drop_first(), k)
    }
}

/// A table from keys to values, kept as a list of entries in which the first
/// entry for a key decides.
#[derive(Debug)]
pub struct Table<K, V> {
    pub entries: Vec<(K, V)>,
}

impl<K: TableKey, V: Copy> Table<K, V> {
    pub open spec fn spec_get(&self, k: K) -> Option<V> {
        table_get(self.entries@, k)
    }

    pub fn new(entries: Vec<(K, V)>) -> (r: Self)
        ensures
            r.entries@ == entries@,
    {
        Table { entries }
    }

    pub fn empty() -> (r: Self)
        ensures
            r.entries@.len() == 0,
            forall|k: K| r.spec_get(k) is None,
    {
        Table { entries: Vec::new() }
    }

    pub fn get(&self, key: &K) -> (r: Option<V>)
        ensures
            r == self.spec_get(*key),
    {
        let len = self.entries.len();
        let mut i: usize = 0;
        assert(self.entries@.subrange(0, len as int) == self.entries@);
        while i < len
            invariant
                len == self.entries@.len(),
                i <= len,
                table_get(self.entries@, *key) == table_get(self.entries@.subrange(i as int, len as int), *key),
            decreases len - i,
        {
            let ghost rest = self.entries@.subrange(i as int, len as int);
            assert(rest.drop_first() == self.entries@.subrange(i as int + 1, len as int));
            if self.entries[i].0.same(key) {
                return Some(self.entries[i].1);
            }
            i = i + 1;
        }
        None
    }

    pub fn contains_key(&self, key: &K) -> (r: bool)
        ensures
            r == self.spec_get(*key) is Some,
    {
        self.get(key).is_some()
    }
}

} // verus!

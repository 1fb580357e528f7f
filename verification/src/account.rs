//! Account identifiers and the sequence operations the pallets share.
use vstd::prelude::*;

verus! {

broadcast use vstd::seq_lib::group_seq_properties, vstd::seq_lib::group_filter_ensures,
    vstd::array::group_array_axioms;

/// A 32-byte account identifier (the runtime's `AccountId32`).
#[derive(Clone, Copy, PartialEq, Eq, Debug, Hash)]
pub struct AccountId {
    pub bytes: [u8; 32],
}

impl AccountId {
    /// Builds an identifier from its 32 bytes.
    pub fn new(bytes: [u8; 32]) -> (r: AccountId)
        ensures
            r.bytes == bytes,
    {
        AccountId { bytes }
    }
}

/// Compares two identifiers byte by byte.
pub fn same_account(a: &AccountId, b: &AccountId) -> (r: bool)
    ensures
        r == (*a == *b),
{
    let mut i: usize = 0;
    while i < 32
        invariant
            0 <= i <= 32,
            forall|j: int| 0 <= j < i ==> a.bytes[j] == b.bytes[j],
        decreases 32 - i,
    {
        if a.bytes[i] != b.bytes[i] {
            assert(a.bytes[i as int] != b.bytes[i as int]);
            return false;
        }
        i = i + 1;
    }
    assert(a.bytes =~= b.bytes);
    true
}

/// `s` with every occurrence of `id` taken out, the rest in order.
pub open spec fn without(s: Seq<AccountId>, id: AccountId) -> Seq<AccountId> {
    s.filter(differs_from(id))
}

/// The predicate "is not `id`".
pub open spec fn differs_from(id: AccountId) -> spec_fn(AccountId) -> bool {
    |x: AccountId| x != id
}

/// The predicate "does not occur in `removed`".
pub open spec fn not_among(removed: Seq<AccountId>) -> spec_fn(AccountId) -> bool {
    |x: AccountId| !removed.contains(x)
}

/// `s` with every element that occurs in `removed` taken out, the rest in order.
pub open spec fn without_all(s: Seq<AccountId>, removed: Seq<AccountId>) -> Seq<AccountId> {
    s.filter(not_among(removed))
}

/// Whether `v` holds `id`.
pub fn contains_account(v: &Vec<AccountId>, id: &AccountId) -> (r: bool)
    ensures
        r == v@.contains(*id),
{
    let mut i: usize = 0;
    while i < v.len()
        invariant
            0 <= i <= v.len(),
            forall|j: int| 0 <= j < i ==> v@[j] != *id,
        decreases v.len() - i,
    {
        if same_account(&v[i], id) {
            assert(v@[i as int] == *id);
            return true;
        }
        i = i + 1;
    }
    false
}

/// The elements of `v` that differ from `id`, in order.
pub fn retain_not_equal(v: &Vec<AccountId>, id: &AccountId) -> (r: Vec<AccountId>)
    ensures
        r@ == without(v@, *id),
{
    let mut r: Vec<AccountId> = Vec::new();
    let mut i: usize = 0;
    while i < v.len()
        invariant
            0 <= i <= v.len(),
            r@ == without(v@.take(i as int), *id),
        decreases v.len() - i,
    {
        let x = v[i];
        proof {
            assert(v@.take(i as int + 1) =~= v@.take(i as int).push(x));
            v@.take(i as int).lemma_filter_push(x, differs_from(*id));
        }
        if !same_account(&x, id) {
            r.push(x);
        }
        i = i + 1;
    }
    assert(v@.take(v.len() as int) =~= v@);
    r
}

/// A copy of `v`.
pub fn copy_accounts(v: &Vec<AccountId>) -> (r: Vec<AccountId>)
    ensures
        r@ == v@,
{
    let mut r: Vec<AccountId> = Vec::new();
    let mut i: usize = 0;
    while i < v.len()
        invariant
            0 <= i <= v.len(),
            r@ == v@.take(i as int),
        decreases v.len() - i,
    {
        r.push(v[i]);
        proof {
            assert(v@.take(i as int + 1) =~= v@.take(i as int).push(v@[i as int]));
        }
        i = i + 1;
    }
    assert(v@.take(v.len() as int) =~= v@);
    r
}

} // verus!

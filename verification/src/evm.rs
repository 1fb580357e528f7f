//! The EVM side of the runtime: block authors as EVM addresses, the gas limit
//! and transaction length used to bound an RPC call or create, and the
//! routing of self-contained Ethereum transactions.
use vstd::prelude::*;
use parity_scale_codec::Encode;
use crate::account::AccountId;
use crate::weights::Weight;

verus! {

broadcast use vstd::array::group_array_axioms;

/// An access list: addresses with the storage keys they touch.
pub type AccessList = Vec<([u8; 20], Vec<[u8; 32]>)>;

/// The number of bytes SCALE uses for the compact encoding of `n`.
pub open spec fn compact_len(n: nat) -> nat {
    if n <= 63 {
        1
    } else if n <= 16_383 {
        2
    } else if n <= 1_073_741_823 {
        4
    } else {
        5
    }
}

/// The encoded size of the access-list items of `list`.
pub open spec fn items_size(list: Seq<([u8; 20], Vec<[u8; 32]>)>) -> nat
    decreases list.len(),
{
    if list.len() == 0 {
        0
    } else {
        items_size(list.drop_last()) + 20 + compact_len(list.last().1@.len()) + 32 * list.last().1@.len()
    }
}

/// The SCALE-encoded size of `Some(list)`: the option byte, the compact
/// length, and each item's address, compact key count and keys.
pub open spec fn access_list_size(list: Seq<([u8; 20], Vec<[u8; 32]>)>) -> nat {
    1 + compact_len(list.len()) + items_size(list)
}

/// Whether SCALE can encode `list`: no collection longer than `u32::MAX`.
pub open spec fn encodable(list: Seq<([u8; 20], Vec<[u8; 32]>)>) -> bool {
    &&& list.len() <= u32::MAX
    &&& forall|i: int| 0 <= i < list.len() ==> #[trigger] list[i].1@.len() <= u32::MAX
}

/// `Encode::encoded_size` of `parity_scale_codec` on `Some(list)`: the
/// number of bytes of its SCALE encoding, as `access_list_size` states; the
/// encoder panics on a collection longer than `u32::MAX`, which `requires`
/// leaves out.
#[verifier::external_body]
fn access_list_encoded_size(list: &AccessList) -> (r: usize)
    requires
        encodable(list@),
        access_list_size(list@) <= usize::MAX,
    ensures
        r == access_list_size(list@),
{
    Some(list).encoded_size()
}

/// Which RPC entry point is estimating.
#[derive(Clone, Copy, PartialEq, Eq, Structural, Debug)]
pub enum EvmCallKind {
    /// A message call to an address.
    Call,
    /// A contract creation.
    Create,
}

/// The fixed part of the estimated transaction length: addresses, value,
/// gas limit, nonce, action, chain id and signature.
pub open spec fn fixed_len(kind: EvmCallKind) -> nat {
    match kind {
        EvmCallKind::Call => 20 + 20 + 32 + 32 + 32 + 1 + 8 + 65,
        EvmCallKind::Create => 20 + 32 + 32 + 32 + 1 + 8 + 65,
    }
}

/// The estimated length of the transaction an RPC call or create stands for.
pub open spec fn estimated_len(
    kind: EvmCallKind,
    data_len: nat,
    has_max_fee: bool,
    has_max_priority_fee: bool,
    access_list: Option<Seq<([u8; 20], Vec<[u8; 32]>)>>,
) -> nat {
    data_len + fixed_len(kind) + (if has_max_fee { 32nat } else { 0nat }) + (if has_max_priority_fee {
        32nat
    } else {
        0nat
    }) + match access_list {
        Some(l) => access_list_size(l),
        None => 0nat,
    }
}

/// The view of an optional access list.
pub open spec fn access_view(access_list: &Option<AccessList>) -> Option<Seq<([u8; 20], Vec<[u8; 32]>)>> {
    match access_list {
        Some(l) => Some(l@),
        None => None,
    }
}

/// The estimated length of the transaction that an RPC call or create stands
/// for: the data, the fixed fields, 32 bytes for each fee cap given, and the
/// encoded access list if there is one.
pub fn estimated_transaction_len(
    kind: EvmCallKind,
    data_len: usize,
    has_max_fee: bool,
    has_max_priority_fee: bool,
    access_list: &Option<AccessList>,
) -> (r: usize)
    requires
        access_list matches Some(l) ==> encodable(l@),
        estimated_len(kind, data_len as nat, has_max_fee, has_max_priority_fee, access_view(access_list))
            <= usize::MAX,
    ensures
        r == estimated_len(kind, data_len as nat, has_max_fee, has_max_priority_fee, access_view(access_list)),
{
    let mut len: usize = match kind {
        EvmCallKind::Call => data_len + 20 + 20 + 32 + 32 + 32 + 1 + 8 + 65,
        EvmCallKind::Create => data_len + 20 + 32 + 32 + 32 + 1 + 8 + 65,
    };
    if has_max_fee {
        len = len + 32;
    }
    if has_max_priority_fee {
        len = len + 32;
    }
    match access_list {
        Some(l) => {
            len = len + access_list_encoded_size(l);
        },
        None => {},
    }
    len
}

/// Law: the estimated length grows with each input on its own: every byte of
/// data adds one byte, each fee cap given adds 32 bytes for a call and for a
/// create alike, a create is a call without the 20 bytes of `to`, and with no
/// data, fee cap or access list a call is 210 bytes.
pub proof fn law_estimated_len_parts(
    kind: EvmCallKind,
    data_len: nat,
    has_max_fee: bool,
    has_max_priority_fee: bool,
    access_list: Option<Seq<([u8; 20], Vec<[u8; 32]>)>>,
)
    ensures
        estimated_len(kind, data_len + 1, has_max_fee, has_max_priority_fee, access_list)
            == estimated_len(kind, data_len, has_max_fee, has_max_priority_fee, access_list) + 1,
        estimated_len(kind, data_len, true, has_max_priority_fee, access_list)
            == estimated_len(kind, data_len, false, has_max_priority_fee, access_list) + 32,
        estimated_len(kind, data_len, has_max_fee, true, access_list)
            == estimated_len(kind, data_len, has_max_fee, false, access_list) + 32,
        estimated_len(EvmCallKind::Create, data_len, has_max_fee, has_max_priority_fee, access_list) + 20
            == estimated_len(EvmCallKind::Call, data_len, has_max_fee, has_max_priority_fee, access_list),
        estimated_len(EvmCallKind::Call, 0, false, false, None) == 210,
        access_list matches Some(l) ==> estimated_len(kind, data_len, has_max_fee, has_max_priority_fee, access_list)
            == estimated_len(kind, data_len, has_max_fee, has_max_priority_fee, None) + access_list_size(l),
{
}

/// Law: the encoded size of an access list is two bytes when it is empty,
/// and each address added with `m` storage keys (`m` at most 63) adds its 20
/// bytes, one byte for the key count and 32 bytes per key, while the list
/// stays under 64 entries.
pub proof fn law_access_list_size_parts(list: Seq<([u8; 20], Vec<[u8; 32]>)>, item: ([u8; 20], Vec<[u8; 32]>))
    ensures
        access_list_size(Seq::empty()) == 2,
        list.len() < 63 && item.1@.len() <= 63 ==> access_list_size(list.push(item)) == access_list_size(list)
            + 21 + 32 * item.1@.len(),
{
    assert(list.push(item).drop_last() =~= list);
}

/// The value of a 256-bit integer given by its four 64-bit limbs, least
/// significant first.
pub open spec fn u256_value(limbs: [u64; 4]) -> int {
    limbs[0] + limbs[1] * 0x1_0000_0000_0000_0000 + limbs[2] * 0x1_0000_0000_0000_0000_0000_0000_0000_0000
        + limbs[3] * 0x1_0000_0000_0000_0000_0000_0000_0000_0000_0000_0000_0000_0000
}

/// A 256-bit gas limit clamped to `u64`.
pub fn clamp_gas_limit(limbs: [u64; 4]) -> (r: u64)
    ensures
        r == (if u256_value(limbs) > u64::MAX { u64::MAX as int } else { u256_value(limbs) }),
{
    let a = limbs[0];
    let b = limbs[1];
    let c = limbs[2];
    let d = limbs[3];
    proof {
        assert(0 <= b * 0x1_0000_0000_0000_0000int) by (nonlinear_arith)
            requires 0 <= b;
        assert(0 <= c * 0x1_0000_0000_0000_0000_0000_0000_0000_0000int) by (nonlinear_arith)
            requires 0 <= c;
        assert(0 <= d * 0x1_0000_0000_0000_0000_0000_0000_0000_0000_0000_0000_0000_0000int) by (nonlinear_arith)
            requires 0 <= d;
        assert(b >= 1 ==> b * 0x1_0000_0000_0000_0000int >= 0x1_0000_0000_0000_0000int) by (nonlinear_arith);
        assert(c >= 1 ==> c * 0x1_0000_0000_0000_0000_0000_0000_0000_0000int
            >= 0x1_0000_0000_0000_0000int) by (nonlinear_arith);
        assert(d >= 1 ==> d * 0x1_0000_0000_0000_0000_0000_0000_0000_0000_0000_0000_0000_0000int
            >= 0x1_0000_0000_0000_0000int) by (nonlinear_arith);
    }
    if b == 0 && c == 0 && d == 0 {
        a
    } else {
        u64::MAX
    }
}

/// The weight and proof-size limits handed to the EVM runner: both when the
/// gas limit's weight has a proof size, neither otherwise.
pub fn evm_weight_limits(gas_weight: Weight, estimated_len: usize) -> (r: (Option<Weight>, Option<u64>))
    ensures
        gas_weight.proof_size > 0 ==> r == (Some(gas_weight), Some(estimated_len as u64)),
        gas_weight.proof_size == 0 ==> r == (None::<Weight>, None::<u64>),
{
    if gas_weight.proof_size() > 0 {
        (Some(gas_weight), Some(estimated_len as u64))
    } else {
        (None, None)
    }
}

/// Finds the EVM address of a block's author: bytes 4 to 24 of the Aura
/// authority's public key.
pub struct FindAuthorTruncated;

impl FindAuthorTruncated {
    /// The author at `author_index` among `authorities`, truncated to 20 bytes.
    pub fn find_author(author_index: Option<u32>, authorities: &Vec<[u8; 32]>) -> (r: Option<[u8; 20]>)
        requires
            author_index matches Some(i) ==> i < authorities@.len(),
        ensures
            author_index is None ==> r is None,
            author_index matches Some(i) ==> (r matches Some(a) && a@ == authorities@[i as int]@.subrange(4, 24)),
    {
        match author_index {
            Some(i) => {
                let key: [u8; 32] = authorities[i as usize];
                let mut out: [u8; 20] = [0u8; 20];
                let mut j: usize = 0;
                while j < 20
                    invariant
                        0 <= j <= 20,
                        forall|k: int| 0 <= k < j ==> out@[k] == key@[k + 4],
                    decreases 20 - j,
                {
                    out[j] = key[j + 4];
                    j = j + 1;
                }
                assert(out@ =~= key@.subrange(4, 24));
                Some(out)
            },
            None => None,
        }
    }
}

/// Finds the account of a block's author from the Aura authority's key.
pub struct AuraAccountAdapter;

impl AuraAccountAdapter {
    /// The account with the key's bytes, when the key is 32 bytes long.
    pub fn find_author(author_key: Option<Vec<u8>>) -> (r: Option<AccountId>)
        ensures
            author_key is None ==> r is None,
            author_key matches Some(k) ==> (k@.len() == 32 <==> r is Some),
            author_key matches Some(k) ==> (r matches Some(a) ==> a.bytes@ == k@),
    {
        match author_key {
            Some(k) => {
                if k.len() != 32 {
                    return None;
                }
                let mut bytes: [u8; 32] = [0u8; 32];
                let mut j: usize = 0;
                while j < 32
                    invariant
                        0 <= j <= 32,
                        k@.len() == 32,
                        forall|m: int| 0 <= m < j ==> bytes@[m] == k@[m],
                    decreases 32 - j,
                {
                    bytes[j] = k[j];
                    j = j + 1;
                }
                assert(bytes@ =~= k@);
                Some(AccountId { bytes })
            },
            None => None,
        }
    }
}

/// The Ethereum pallet's calls, carrying transactions of type `T`.
#[derive(PartialEq, Eq, Debug)]
pub enum EthereumCall<T> {
    /// `transact`, a signed Ethereum transaction.
    Transact(T),
    /// Any other call of the pallet.
    Other,
}

/// A runtime call, as far as self-contained dispatch tells calls apart.
#[derive(PartialEq, Eq, Debug)]
pub enum RuntimeCall<T> {
    /// A call of the Ethereum pallet.
    Ethereum(EthereumCall<T>),
    /// A call of any other pallet.
    Other,
}

/// The origin a self-contained Ethereum transaction is dispatched with.
#[derive(Clone, Copy, PartialEq, Eq, Debug)]
pub enum EthereumOrigin {
    /// The transaction signed by this address.
    EthereumTransaction([u8; 20]),
}

/// The Ethereum transaction a call carries, if it is a `transact`.
pub open spec fn transaction_of<T>(call: RuntimeCall<T>) -> Option<T> {
    match call {
        RuntimeCall::Ethereum(EthereumCall::Transact(t)) => Some(t),
        _ => None,
    }
}

impl<T> RuntimeCall<T> {
    /// Whether the call is self-contained: what the Ethereum pallet answers
    /// for its calls, `false` for every other call.
    pub fn is_self_contained(&self, ethereum_answer: bool) -> (r: bool)
        ensures
            r == (*self is Ethereum && ethereum_answer),
    {
        match self {
            RuntimeCall::Ethereum(_) => ethereum_answer,
            _ => false,
        }
    }

    /// The signature check of a self-contained call: the Ethereum pallet's
    /// for its calls, none for every other call.
    pub fn check_self_contained<R>(&self, ethereum_check: Option<R>) -> (r: Option<R>)
        ensures
            r == (if *self is Ethereum { ethereum_check } else { None::<R> }),
    {
        match self {
            RuntimeCall::Ethereum(_) => ethereum_check,
            _ => None,
        }
    }

    /// The validity of a self-contained call: the Ethereum pallet's for its
    /// calls, none for every other call.
    pub fn validate_self_contained<R>(&self, ethereum_validity: Option<R>) -> (r: Option<R>)
        ensures
            r == (if *self is Ethereum { ethereum_validity } else { None::<R> }),
    {
        match self {
            RuntimeCall::Ethereum(_) => ethereum_validity,
            _ => None,
        }
    }

    /// The pre-dispatch check of a self-contained call: the Ethereum pallet's
    /// for its calls, none for every other call.
    pub fn pre_dispatch_self_contained<R>(&self, ethereum_pre_dispatch: Option<R>) -> (r: Option<R>)
        ensures
            r == (if *self is Ethereum { ethereum_pre_dispatch } else { None::<R> }),
    {
        match self {
            RuntimeCall::Ethereum(_) => ethereum_pre_dispatch,
            _ => None,
        }
    }

    /// The origin to dispatch a self-contained call with: only an Ethereum
    /// `transact` is applied, with the signer's address as its origin.
    pub fn apply_self_contained(&self, info: [u8; 20]) -> (r: Option<EthereumOrigin>)
        ensures
            r == (if transaction_of(*self) is Some {
                Some(EthereumOrigin::EthereumTransaction(info))
            } else {
                None::<EthereumOrigin>
            }),
    {
        match self {
            RuntimeCall::Ethereum(EthereumCall::Transact(_)) => Some(EthereumOrigin::EthereumTransaction(info)),
            _ => None,
        }
    }
}

/// `transaction_of` as a function value.
pub open spec fn transaction_picker<T>() -> spec_fn(RuntimeCall<T>) -> Option<T> {
    |c: RuntimeCall<T>| transaction_of(c)
}

/// The Ethereum transactions among a block's calls, in order.
pub fn extrinsic_filter<T>(xts: Vec<RuntimeCall<T>>) -> (r: Vec<T>)
    ensures
        r@ == xts@.filter_map(transaction_picker()),
{
    let ghost orig = xts@;
    let ghost f = transaction_picker::<T>();
    let ghost n = xts@.len();
    let mut xts = xts;
    let mut rev: Vec<RuntimeCall<T>> = Vec::new();
    while xts.len() > 0
        invariant
            xts@ == orig.take(xts@.len() as int),
            xts@.len() <= n,
            n == orig.len(),
            rev@.len() == n - xts@.len(),
            forall|j: int| 0 <= j < rev@.len() ==> #[trigger] rev@[j] == orig[n - 1 - j],
        decreases xts@.len(),
    {
        let ghost before = xts@;
        let c = xts.pop().unwrap();
        proof {
            assert(before.len() > 0);
            assert(c == orig[before.len() - 1]);
            assert(xts@ =~= orig.take(xts@.len() as int));
        }
        rev.push(c);
    }
    let mut r: Vec<T> = Vec::new();
    while rev.len() > 0
        invariant
            rev@.len() <= n,
            n == orig.len(),
            forall|j: int| 0 <= j < rev@.len() ==> #[trigger] rev@[j] == orig[n - 1 - j],
            r@ == orig.take(n - rev@.len()).filter_map(f),
            f == transaction_picker::<T>(),
        decreases rev@.len(),
    {
        let ghost k: int = n - rev@.len();
        let c = rev.pop().unwrap();
        proof {
            assert(c == orig[k]);
            orig.lemma_filter_map_take_succ(f, k);
        }
        let ghost fc = transaction_picker::<T>()(c);
        let ghost before = r@;
        assert(f(orig[k]) == fc);
        match c {
            RuntimeCall::Ethereum(EthereumCall::Transact(t)) => {
                assert(fc == Some(t));
                r.push(t);
            },
            _ => {
                assert(fc is None);
            },
        }
        proof {
            assert(r@ =~= before + (match fc {
                Option::Some(t) => seq![t],
                Option::None => Seq::<T>::empty(),
            }));
            assert(r@ =~= orig.take(k + 1).filter_map(f));
        }
    }
    assert(orig.take(n as int) =~= orig);
    r
}

} // verus!

//! The Elysium pallet: a root-managed set of signers, a foundation wallet,
//! and the coin supply and main accounts set at genesis.
use vstd::prelude::*;
use crate::account::AccountId;
use crate::origin::{DispatchError, RawOrigin, ensure_root, root_check};
use crate::store::KeyedStore;

verus! {

/// The pallet's events.
#[derive(Clone, Copy, PartialEq, Eq, Debug)]
pub enum Event {
    UserCoinsIssued(AccountId, u128),
    SignerRemoved(AccountId),
    SignerAdded(AccountId),
    WalletAdded(AccountId),
    WalletRemoved(AccountId),
}

/// The pallet's errors.
#[derive(Clone, Copy, PartialEq, Eq, Structural, Debug)]
pub enum Error {
    WalletNotMatched,
    AlreadySigner,
    NotSigner,
    LowBalanceToBurn,
    TooManyCoinsToAllocate,
    AlreadyWalletAdded,
    WalletAdded,
    WalletRemoved,
}

/// The pallet's configuration.
#[derive(Clone, Copy, PartialEq, Eq, Structural, Debug)]
pub struct Config {
    /// The maximum coin supply.
    pub maximum_supply: u128,
}

/// The pallet's storage and the events it deposited.
pub struct Pallet {
    coins_amount: u128,
    main_account: KeyedStore<u128>,
    signers: KeyedStore<bool>,
    foundation_wallet: Option<AccountId>,
    maximum_supply: u128,
    events: Vec<Event>,
}

/// The abstract state of the pallet.
pub struct PalletState {
    /// The coin amount set at genesis.
    pub coins_amount: u128,
    /// The balance of each main account.
    pub main_account: Map<AccountId, u128>,
    /// The signers.
    pub signers: Map<AccountId, bool>,
    /// The foundation wallet, once set.
    pub foundation_wallet: Option<AccountId>,
    /// The configured maximum supply.
    pub maximum_supply: u128,
    /// The events deposited so far, oldest first.
    pub events: Seq<Event>,
}

impl View for Pallet {
    type V = PalletState;

    closed spec fn view(&self) -> PalletState {
        PalletState {
            coins_amount: self.coins_amount,
            main_account: self.main_account@,
            signers: self.signers@,
            foundation_wallet: self.foundation_wallet,
            maximum_supply: self.maximum_supply,
            events: self.events@,
        }
    }
}

/// The signers after adding `signer`, or the error.
pub open spec fn add_signer_outcome(signers: Map<AccountId, bool>, signer: AccountId) -> Result<Map<AccountId, bool>, Error> {
    if signers.dom().contains(signer) {
        Err(Error::AlreadySigner)
    } else {
        Ok(signers.insert(signer, true))
    }
}

/// The signers after removing `signer`, or the error.
pub open spec fn remove_signer_outcome(signers: Map<AccountId, bool>, signer: AccountId) -> Result<Map<AccountId, bool>, Error> {
    if signers.dom().contains(signer) {
        Ok(signers.remove(signer))
    } else {
        Err(Error::NotSigner)
    }
}

/// `m` after inserting the pairs of `pairs` in order; a later pair for the
/// same account replaces an earlier one.
pub open spec fn insert_all(m: Map<AccountId, u128>, pairs: Seq<(AccountId, u128)>) -> Map<AccountId, u128>
    decreases pairs.len(),
{
    if pairs.len() == 0 {
        m
    } else {
        insert_all(m, pairs.drop_last()).insert(pairs.last().0, pairs.last().1)
    }
}

impl Pallet {
    /// Empty storage for a pallet with the given configuration.
    pub fn new(config: Config) -> (p: Pallet)
        ensures
            p@.coins_amount == 0,
            p@.main_account == Map::<AccountId, u128>::empty(),
            p@.signers == Map::<AccountId, bool>::empty(),
            p@.foundation_wallet is None,
            p@.maximum_supply == config.maximum_supply,
            p@.events == Seq::<Event>::empty(),
    {
        Pallet {
            coins_amount: 0,
            main_account: KeyedStore::new(),
            signers: KeyedStore::new(),
            foundation_wallet: None,
            maximum_supply: config.maximum_supply,
            events: Vec::new(),
        }
    }

    /// The coin amount.
    pub fn balance(&self) -> (r: u128)
        ensures
            r == self@.coins_amount,
    {
        self.coins_amount
    }

    /// The configured maximum supply.
    pub fn maximum_supply(&self) -> (r: u128)
        ensures
            r == self@.maximum_supply,
    {
        self.maximum_supply
    }

    /// The balance of a main account, if it has one.
    pub fn main_account(&self, account: &AccountId) -> (r: Option<u128>)
        ensures
            r == (if self@.main_account.dom().contains(*account) {
                Some(self@.main_account[*account])
            } else {
                None::<u128>
            }),
    {
        self.main_account.get(account)
    }

    /// The signer entry of an account, if it has one.
    pub fn signers(&self, account: &AccountId) -> (r: Option<bool>)
        ensures
            r == (if self@.signers.dom().contains(*account) {
                Some(self@.signers[*account])
            } else {
                None::<bool>
            }),
    {
        self.signers.get(account)
    }

    /// The foundation wallet, once set.
    pub fn foundation_wallet(&self) -> (r: Option<AccountId>)
        ensures
            r == self@.foundation_wallet,
    {
        self.foundation_wallet
    }

    /// The number of events deposited so far.
    pub fn event_count(&self) -> (r: usize)
        ensures
            r == self@.events.len(),
    {
        self.events.len()
    }

    /// The event at position `i`, oldest first.
    pub fn event(&self, i: usize) -> (r: Event)
        requires
            i < self@.events.len(),
        ensures
            r == self@.events[i as int],
    {
        self.events[i]
    }

    /// Makes `signer` a signer; the origin must be root and `signer` not a
    /// signer yet.
    pub fn add_signer(&mut self, origin: RawOrigin, signer: AccountId) -> (r: Result<(), DispatchError>)
        ensures
            root_check(origin) is Err ==> r == Err::<(), DispatchError>(DispatchError::BadOrigin)
                && final(self)@ == old(self)@,
            root_check(origin) is Ok ==> match add_signer_outcome(old(self)@.signers, signer) {
                Ok(m) => r is Ok && final(self)@ == (PalletState {
                    signers: m,
                    events: old(self)@.events.push(Event::SignerAdded(signer)),
                    ..old(self)@
                }),
                Err(e) => r == Err::<(), DispatchError>(DispatchError::Elysium(e))
                    && final(self)@ == old(self)@,
            },
    {
        ensure_root(&origin)?;
        if self.signers.contains_key(&signer) {
            return Err(DispatchError::Elysium(Error::AlreadySigner));
        }
        self.signers.insert(signer, true);
        self.events.push(Event::SignerAdded(signer));
        Ok(())
    }

    /// Takes `signer` out of the signers; the origin must be root and
    /// `signer` a signer.
    pub fn remove_signer(&mut self, origin: RawOrigin, signer: AccountId) -> (r: Result<(), DispatchError>)
        ensures
            root_check(origin) is Err ==> r == Err::<(), DispatchError>(DispatchError::BadOrigin)
                && final(self)@ == old(self)@,
            root_check(origin) is Ok ==> match remove_signer_outcome(old(self)@.signers, signer) {
                Ok(m) => r is Ok && final(self)@ == (PalletState {
                    signers: m,
                    events: old(self)@.events.push(Event::SignerRemoved(signer)),
                    ..old(self)@
                }),
                Err(e) => r == Err::<(), DispatchError>(DispatchError::Elysium(e))
                    && final(self)@ == old(self)@,
            },
    {
        ensure_root(&origin)?;
        if !self.signers.contains_key(&signer) {
            return Err(DispatchError::Elysium(Error::NotSigner));
        }
        self.signers.remove(&signer);
        self.events.push(Event::SignerRemoved(signer));
        Ok(())
    }

    /// Sets the foundation wallet; the origin must be root.
    pub fn add_wallet(&mut self, origin: RawOrigin, signer: AccountId) -> (r: Result<(), DispatchError>)
        ensures
            root_check(origin) is Err ==> r == Err::<(), DispatchError>(DispatchError::BadOrigin)
                && final(self)@ == old(self)@,
            root_check(origin) is Ok ==> r is Ok && final(self)@ == (PalletState {
                foundation_wallet: Some(signer),
                ..old(self)@
            }),
    {
        ensure_root(&origin)?;
        self.foundation_wallet = Some(signer);
        Ok(())
    }
}

/// The coin amount and main accounts the chain starts with.
pub struct GenesisConfig {
    pub balance: u128,
    pub main_account: Vec<(AccountId, u128)>,
}

impl GenesisConfig {
    /// Puts the coin amount and inserts each main account in order.
    pub fn build(&self, pallet: &mut Pallet)
        ensures
            final(pallet)@ == (PalletState {
                coins_amount: self.balance,
                main_account: insert_all(old(pallet)@.main_account, self.main_account@),
                ..old(pallet)@
            }),
    {
        pallet.coins_amount = self.balance;
        let mut i: usize = 0;
        while i < self.main_account.len()
            invariant
                0 <= i <= self.main_account@.len(),
                pallet@ == (PalletState {
                    coins_amount: self.balance,
                    main_account: insert_all(old(pallet)@.main_account, self.main_account@.take(i as int)),
                    ..old(pallet)@
                }),
            decreases self.main_account@.len() - i,
        {
            let (a, b) = self.main_account[i];
            pallet.main_account.insert(a, b);
            proof {
                let t = self.main_account@.take(i as int + 1);
                assert(t.drop_last() =~= self.main_account@.take(i as int));
                assert(t.last() == (a, b));
            }
            i = i + 1;
        }
        assert(self.main_account@.take(self.main_account@.len() as int) =~= self.main_account@);
    }
}

impl Default for GenesisConfig {
    fn default() -> (r: GenesisConfig)
        ensures
            r.balance == 0,
            r.main_account@ == Seq::<(AccountId, u128)>::empty(),
    {
        GenesisConfig { balance: 0, main_account: Vec::new() }
    }
}


/// Law: making an account a signer and then taking it out again gives back
/// the signers it started from.
pub proof fn law_add_then_remove_signer_restores(signers: Map<AccountId, bool>, signer: AccountId)
    requires
        !signers.dom().contains(signer),
    ensures
        add_signer_outcome(signers, signer) == Ok::<Map<AccountId, bool>, Error>(signers.insert(signer, true)),
        remove_signer_outcome(signers.insert(signer, true), signer) == Ok::<Map<AccountId, bool>, Error>(signers),
{
    assert(signers.insert(signer, true).remove(signer) =~= signers);
}

/// Law: an account that is a signer after `add_signer` is refused a second
/// time; an account taken out by `remove_signer` is refused a second time.
pub proof fn law_signer_changes_are_not_repeated(signers: Map<AccountId, bool>, signer: AccountId)
    ensures
        add_signer_outcome(signers, signer) matches Ok(m) ==> add_signer_outcome(m, signer)
            == Err::<Map<AccountId, bool>, Error>(Error::AlreadySigner),
        remove_signer_outcome(signers, signer) matches Ok(m) ==> remove_signer_outcome(m, signer)
            == Err::<Map<AccountId, bool>, Error>(Error::NotSigner),
{
}

/// Law: after genesis, an account named in the main-account list holds the
/// balance of the last pair that names it.
pub proof fn law_genesis_last_pair_wins(
    m: Map<AccountId, u128>,
    pairs: Seq<(AccountId, u128)>,
    i: int,
)
    requires
        0 <= i < pairs.len(),
        forall|j: int| i < j < pairs.len() ==> #[trigger] pairs[j].0 != pairs[i].0,
    ensures
        insert_all(m, pairs).dom().contains(pairs[i].0),
        insert_all(m, pairs)[pairs[i].0] == pairs[i].1,
    decreases pairs.len(),
{
    let n = pairs.len() - 1;
    if i < n {
        let init = pairs.drop_last();
        assert(pairs[n].0 != pairs[i].0);
        assert forall|j: int| i < j < init.len() implies #[trigger] init[j].0 != init[i].0 by {
            assert(pairs[j].0 != pairs[i].0);
        }
        law_genesis_last_pair_wins(m, init, i);
    }
}

/// Law: genesis leaves the balance of an account that no pair names as it was.
pub proof fn law_genesis_keeps_unnamed(m: Map<AccountId, u128>, pairs: Seq<(AccountId, u128)>, k: AccountId)
    requires
        forall|j: int| 0 <= j < pairs.len() ==> #[trigger] pairs[j].0 != k,
    ensures
        insert_all(m, pairs).dom().contains(k) == m.dom().contains(k),
        m.dom().contains(k) ==> insert_all(m, pairs)[k] == m[k],
    decreases pairs.len(),
{
    if pairs.len() > 0 {
        let init = pairs.drop_last();
        assert(pairs[pairs.len() - 1].0 != k);
        assert forall|j: int| 0 <= j < init.len() implies #[trigger] init[j].0 != k by {
            assert(pairs[j].0 != k);
        }
        law_genesis_keeps_unnamed(m, init, k);
    }
}

} // verus!

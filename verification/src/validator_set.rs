//! The validator-set pallet: addition and removal of validators by a root
//! call, and automatic removal of validators reported offline, applied when
//! the session rotates.
use vstd::prelude::*;
use crate::account::{
    AccountId, contains_account, copy_accounts, retain_not_equal, without,
    without_all,
};
use crate::origin::{DispatchError, RawOrigin, ensure_root, root_check};
use crate::weights::Weight;

verus! {

broadcast use vstd::seq_lib::group_seq_properties, vstd::seq_lib::group_filter_ensures;

/// The pallet's events.
#[derive(Clone, Copy, PartialEq, Eq, Debug)]
pub enum Event {
    /// New validator addition initiated. Effective in ~2 sessions.
    ValidatorAdditionInitiated(AccountId),
    /// Validator removal initiated. Effective in ~2 sessions.
    ValidatorRemovalInitiated(AccountId),
}

/// The pallet's errors.
#[derive(Clone, Copy, PartialEq, Eq, Structural, Debug)]
pub enum Error {
    /// Target (post-removal) validator count is below the minimum.
    TooLowValidatorCount,
    /// Validator is already in the validator set.
    Duplicate,
}

/// What an offence report can be refused with.
#[derive(Clone, Copy, PartialEq, Eq, Structural, Debug)]
pub enum OffenceError {
    /// The offence was reported already.
    DuplicateReport,
    /// Another error, by its code.
    Other(u8),
}

/// The pallet's configuration.
#[derive(Clone, Copy, PartialEq, Eq, Structural, Debug)]
pub struct Config {
    /// Minimum number of validators to leave in the validator set on removal.
    pub min_authorities: u32,
}

/// The pallet's storage and the events it deposited.
pub struct Pallet {
    validators: Vec<AccountId>,
    offline_validators: Vec<AccountId>,
    min_authorities: u32,
    events: Vec<Event>,
}

/// The abstract state of the pallet.
pub struct PalletState {
    /// The validators, in the order they were added.
    pub validators: Seq<AccountId>,
    /// The validators reported offline during the current session.
    pub offline: Seq<AccountId>,
    /// The configured minimum validator count.
    pub min_authorities: u32,
    /// The events deposited so far, oldest first.
    pub events: Seq<Event>,
}

impl View for Pallet {
    type V = PalletState;

    closed spec fn view(&self) -> PalletState {
        PalletState {
            validators: self.validators@,
            offline: self.offline_validators@,
            min_authorities: self.min_authorities,
            events: self.events@,
        }
    }
}

/// A validator count as it is compared with the minimum: cast to `u32`.
pub open spec fn as_count(len: nat) -> u32 {
    len as u32
}

/// The validator set after adding `id`, or the error.
pub open spec fn add_outcome(validators: Seq<AccountId>, id: AccountId) -> Result<Seq<AccountId>, Error> {
    if validators.contains(id) {
        Err(Error::Duplicate)
    } else {
        Ok(validators.push(id))
    }
}

/// The validator set after removing `id`, or the error when the count left
/// after the removal would be below the minimum.
pub open spec fn remove_outcome(validators: Seq<AccountId>, id: AccountId, min_authorities: u32) -> Result<Seq<AccountId>, Error> {
    let rest = without(validators, id);
    if as_count(rest.len()) < min_authorities {
        Err(Error::TooLowValidatorCount)
    } else {
        Ok(rest)
    }
}

/// One step of the automatic removal: `id` is removed when that leaves at
/// least the minimum, and the set is kept as it is otherwise.
pub open spec fn auto_remove_step(validators: Seq<AccountId>, id: AccountId, min_authorities: u32) -> Seq<AccountId> {
    match remove_outcome(validators, id, min_authorities) {
        Ok(rest) => rest,
        Err(_) => validators,
    }
}

/// The automatic removal of the validators in `marked`, one after the other
/// in the order they were marked, each only while the minimum is kept.
pub open spec fn auto_remove(validators: Seq<AccountId>, marked: Seq<AccountId>, min_authorities: u32) -> Seq<AccountId>
    decreases marked.len(),
{
    if marked.len() == 0 {
        validators
    } else {
        auto_remove_step(auto_remove(validators, marked.drop_last(), min_authorities), marked.last(), min_authorities)
    }
}

/// The state after a call that changed the validators to `validators` and
/// deposited `event`.
pub open spec fn changed(s: PalletState, validators: Seq<AccountId>, event: Event) -> PalletState {
    PalletState { validators, events: s.events.push(event), ..s }
}

/// The state after the offline validators were taken out of the set, as far
/// as the minimum allows, and the marks cleared.
pub open spec fn offline_removed(s: PalletState) -> PalletState {
    PalletState {
        validators: auto_remove(s.validators, s.offline, s.min_authorities),
        offline: Seq::empty(),
        ..s
    }
}

impl Pallet {
    /// Empty storage for a pallet with the given configuration.
    pub fn new(config: Config) -> (p: Pallet)
        ensures
            p@.validators == Seq::<AccountId>::empty(),
            p@.offline == Seq::<AccountId>::empty(),
            p@.min_authorities == config.min_authorities,
            p@.events == Seq::<Event>::empty(),
    {
        Pallet {
            validators: Vec::new(),
            offline_validators: Vec::new(),
            min_authorities: config.min_authorities,
            events: Vec::new(),
        }
    }

    /// The stored validators.
    pub fn validators(&self) -> (r: Vec<AccountId>)
        ensures
            r@ == self@.validators,
    {
        copy_accounts(&self.validators)
    }

    /// The validators marked for removal at the next session.
    pub fn offline_validators(&self) -> (r: Vec<AccountId>)
        ensures
            r@ == self@.offline,
    {
        copy_accounts(&self.offline_validators)
    }

    /// The configured minimum validator count.
    pub fn min_authorities(&self) -> (r: u32)
        ensures
            r == self@.min_authorities,
    {
        self.min_authorities
    }

    /// The number of events deposited so far.
    pub fn event_count(&self) -> (r: usize)
        ensures
            r == self@.events.len(),
    {
        self.events.len()
    }

    /// The event at position `i`, oldest first.
    pub fn event(&self, i: usize) -> (r: Event)
        requires
            i < self@.events.len(),
        ensures
            r == self@.events[i as int],
    {
        self.events[i]
    }

    /// Adds a validator unless it is already in the set.
    pub fn do_add_validator(&mut self, validator_id: AccountId) -> (r: Result<(), Error>)
        ensures
            match add_outcome(old(self)@.validators, validator_id) {
                Ok(vs) => r is Ok && final(self)@ == changed(
                    old(self)@,
                    vs,
                    Event::ValidatorAdditionInitiated(validator_id),
                ),
                Err(e) => r == Err::<(), Error>(e) && final(self)@ == old(self)@,
            },
    {
        if contains_account(&self.validators, &validator_id) {
            return Err(Error::Duplicate);
        }
        self.validators.push(validator_id);
        self.events.push(Event::ValidatorAdditionInitiated(validator_id));
        Ok(())
    }

    /// Removes every occurrence of a validator, unless the count left after
    /// the removal would be below the minimum.
    pub fn do_remove_validator(&mut self, validator_id: AccountId) -> (r: Result<(), Error>)
        ensures
            match remove_outcome(old(self)@.validators, validator_id, old(self)@.min_authorities) {
                Ok(vs) => r is Ok && final(self)@ == changed(
                    old(self)@,
                    vs,
                    Event::ValidatorRemovalInitiated(validator_id),
                ),
                Err(e) => r == Err::<(), Error>(e) && final(self)@ == old(self)@,
            },
    {
        let kept = retain_not_equal(&self.validators, &validator_id);
        #[verifier::truncate]
        let kept_count: u32 = kept.len() as u32;
        if kept_count < self.min_authorities {
            return Err(Error::TooLowValidatorCount);
        }
        self.validators = kept;
        self.events.push(Event::ValidatorRemovalInitiated(validator_id));
        Ok(())
    }

    /// Adds a validator; the origin must be root.
    pub fn add_validator(&mut self, origin: RawOrigin, validator_id: AccountId) -> (r: Result<(), DispatchError>)
        ensures
            root_check(origin) is Err ==> r == Err::<(), DispatchError>(DispatchError::BadOrigin)
                && final(self)@ == old(self)@,
            root_check(origin) is Ok ==> match add_outcome(old(self)@.validators, validator_id) {
                Ok(vs) => r is Ok && final(self)@ == changed(
                    old(self)@,
                    vs,
                    Event::ValidatorAdditionInitiated(validator_id),
                ),
                Err(e) => r == Err::<(), DispatchError>(DispatchError::ValidatorSet(e))
                    && final(self)@ == old(self)@,
            },
    {
        ensure_root(&origin)?;
        match self.do_add_validator(validator_id) {
            Ok(()) => Ok(()),
            Err(e) => Err(DispatchError::ValidatorSet(e)),
        }
    }

    /// Removes a validator; the origin must be root.
    pub fn remove_validator(&mut self, origin: RawOrigin, validator_id: AccountId) -> (r: Result<(), DispatchError>)
        ensures
            root_check(origin) is Err ==> r == Err::<(), DispatchError>(DispatchError::BadOrigin)
                && final(self)@ == old(self)@,
            root_check(origin) is Ok ==> match remove_outcome(
                old(self)@.validators,
                validator_id,
                old(self)@.min_authorities,
            ) {
                Ok(vs) => r is Ok && final(self)@ == changed(
                    old(self)@,
                    vs,
                    Event::ValidatorRemovalInitiated(validator_id),
                ),
                Err(e) => r == Err::<(), DispatchError>(DispatchError::ValidatorSet(e))
                    && final(self)@ == old(self)@,
            },
    {
        ensure_root(&origin)?;
        match self.do_remove_validator(validator_id) {
            Ok(()) => Ok(()),
            Err(e) => Err(DispatchError::ValidatorSet(e)),
        }
    }

    /// Marks a validator for removal at the next session.
    pub fn mark_for_removal(&mut self, validator_id: AccountId)
        ensures
            final(self)@ == (PalletState { offline: old(self)@.offline.push(validator_id), ..old(self)@ }),
    {
        self.offline_validators.push(validator_id);
    }

    /// Takes the validators marked offline out of the set, in the order they
    /// were marked, each only while at least the minimum stays, and clears
    /// the marks.
    pub fn remove_offline_validators(&mut self)
        ensures
            final(self)@ == offline_removed(old(self)@),
    {
        let mut marked: Vec<AccountId> = Vec::new();
        std::mem::swap(&mut marked, &mut self.offline_validators);
        let mut i: usize = 0;
        while i < marked.len()
            invariant
                0 <= i <= marked@.len(),
                marked@ == old(self)@.offline,
                self@ == (PalletState {
                    validators: auto_remove(old(self)@.validators, marked@.take(i as int), old(self)@.min_authorities),
                    offline: Seq::empty(),
                    ..old(self)@
                }),
            decreases marked@.len() - i,
        {
            let id = marked[i];
            let kept = retain_not_equal(&self.validators, &id);
            #[verifier::truncate]
            let kept_count: u32 = kept.len() as u32;
            if kept_count >= self.min_authorities {
                self.validators = kept;
            }
            proof {
                assert(marked@.take(i as int + 1).drop_last() =~= marked@.take(i as int));
            }
            i = i + 1;
        }
        assert(marked@.take(marked@.len() as int) =~= marked@);
    }

    /// Plans a new session: removes the offline validators and hands the
    /// resulting set to the session module.
    pub fn new_session(&mut self, new_index: u32) -> (r: Option<Vec<AccountId>>)
        ensures
            final(self)@ == offline_removed(old(self)@),
            r is Some,
            r matches Some(vs) && vs@ == final(self)@.validators,
    {
        self.remove_offline_validators();
        Some(self.validators())
    }

    /// Called when a session ends; does nothing.
    pub fn end_session(&mut self, end_index: u32)
        ensures
            final(self)@ == old(self)@,
    {
    }

    /// Called when a session starts; does nothing.
    pub fn start_session(&mut self, start_index: u32)
        ensures
            final(self)@ == old(self)@,
    {
    }

    /// Marks the first member of each offender pair for removal, in order.
    pub fn report_offence(
        &mut self,
        reporters: Vec<AccountId>,
        offenders: Vec<(AccountId, AccountId)>,
    ) -> (r: Result<(), OffenceError>)
        ensures
            r is Ok,
            final(self)@ == (PalletState {
                offline: old(self)@.offline + offenders@.map_values(|p: (AccountId, AccountId)| p.0),
                ..old(self)@
            }),
    {
        let mut i: usize = 0;
        while i < offenders.len()
            invariant
                0 <= i <= offenders.len(),
                self@ == (PalletState {
                    offline: old(self)@.offline + offenders@.take(i as int).map_values(
                        |p: (AccountId, AccountId)| p.0,
                    ),
                    ..old(self)@
                }),
            decreases offenders.len() - i,
        {
            let (v, _) = offenders[i];
            self.mark_for_removal(v);
            proof {
                assert(offenders@.take(i as int + 1).map_values(|p: (AccountId, AccountId)| p.0)
                    =~= offenders@.take(i as int).map_values(|p: (AccountId, AccountId)| p.0).push(v));
                assert(self@.offline =~= old(self)@.offline + offenders@.take(i as int + 1).map_values(
                    |p: (AccountId, AccountId)| p.0,
                ));
            }
            i = i + 1;
        }
        assert(offenders@.take(offenders.len() as int) =~= offenders@);
        Ok(())
    }

    /// Offences are never treated as known.
    pub fn is_known_offence(offenders: &Vec<(AccountId, AccountId)>, time_slot: u64) -> (r: bool)
        ensures
            r == false,
    {
        false
    }

    /// The pallet gives no estimate of the session length.
    pub fn average_session_length() -> (r: u32)
        ensures
            r == 0,
    {
        0
    }

    /// The pallet gives no estimate of the current session's progress.
    pub fn estimate_current_session_progress(now: u32) -> (r: (Option<u32>, Weight))
        ensures
            r.0 is None,
            r.1 == Weight::zero_spec(),
    {
        (None, Weight::zero())
    }

    /// The pallet gives no estimate of the next session rotation.
    pub fn estimate_next_session_rotation(now: u32) -> (r: (Option<u32>, Weight))
        ensures
            r.0 is None,
            r.1 == Weight::zero_spec(),
    {
        (None, Weight::zero())
    }
}

/// Converts a validator's account into its validator identifier (the same one).
pub struct ValidatorOf;

impl ValidatorOf {
    /// Always the account itself.
    pub fn convert(account: AccountId) -> (r: Option<AccountId>)
        ensures
            r == Some(account),
    {
        Some(account)
    }
}

/// The validators the chain starts with.
pub struct GenesisConfig {
    pub initial_validators: Vec<AccountId>,
}

impl GenesisConfig {
    /// Puts the initial validators into the (empty) validator set.
    pub fn build(&self, pallet: &mut Pallet)
        requires
            old(pallet)@.validators.len() == 0,
        ensures
            final(pallet)@ == (PalletState { validators: self.initial_validators@, ..old(pallet)@ }),
    {
        pallet.validators = copy_accounts(&self.initial_validators);
    }
}

impl Default for GenesisConfig {
    fn default() -> (r: GenesisConfig)
        ensures
            r.initial_validators@ == Seq::<AccountId>::empty(),
    {
        GenesisConfig { initial_validators: Vec::new() }
    }
}


/// A set that does not hold `id` is unchanged by taking `id` out.
proof fn lemma_without_absent(vs: Seq<AccountId>, id: AccountId)
    requires
        !vs.contains(id),
    ensures
        without(vs, id) == vs,
    decreases vs.len(),
{
    if vs.len() > 0 {
        let init = vs.drop_last();
        assert(!init.contains(id)) by {
            if init.contains(id) {
                let k = choose|k: int| 0 <= k < init.len() && init[k] == id;
                assert(vs[k] == id);
            }
        }
        lemma_without_absent(init, id);
        assert(init.push(vs.last()) =~= vs);
        init.lemma_filter_push(vs.last(), crate::account::differs_from(id));
    }
}

/// An element stays in `without(vs, id)` exactly when it is in `vs` and is
/// not `id`.
proof fn lemma_without_contains(vs: Seq<AccountId>, id: AccountId, v: AccountId)
    ensures
        without(vs, id).contains(v) == (vs.contains(v) && v != id),
{
    let p = crate::account::differs_from(id);
    let w = vs.filter(p);
    if w.contains(v) {
        vs.lemma_filter_contains_rev(p, v);
        let k = choose|k: int| 0 <= k < w.len() && w[k] == v;
        vs.lemma_filter_pred(p, k);
    }
    if vs.contains(v) && v != id {
        let k = choose|k: int| 0 <= k < vs.len() && vs[k] == v;
        vs.lemma_filter_contains(p, k);
    }
}

/// Taking `id` out of a set without duplicates leaves a set without
/// duplicates.
proof fn lemma_without_distinct(vs: Seq<AccountId>, id: AccountId)
    requires
        vs.no_duplicates(),
    ensures
        without(vs, id).no_duplicates(),
    decreases vs.len(),
{
    if vs.len() > 0 {
        let init = vs.drop_last();
        let x = vs.last();
        assert(init.push(x) =~= vs);
        assert(init.no_duplicates());
        assert(!init.contains(x)) by {
            if init.contains(x) {
                let k = choose|k: int| 0 <= k < init.len() && init[k] == x;
                assert(vs[k] == vs[vs.len() - 1]);
            }
        }
        lemma_without_distinct(init, id);
        init.lemma_filter_push(x, crate::account::differs_from(id));
        if x != id {
            let w = without(init, id);
            assert(!w.contains(x)) by {
                if w.contains(x) {
                    init.lemma_filter_contains_rev(crate::account::differs_from(id), x);
                }
            }
            assert forall|a: int, b: int| 0 <= a < b < w.push(x).len() implies w.push(x)[a]
                != w.push(x)[b] by {
                if b == w.len() {
                    assert(w.contains(w[a]));
                }
            }
        }
    }
}

/// An element stays in `without_all(vs, removed)` exactly when it is in `vs`
/// and not in `removed`.
proof fn lemma_without_all_contains(vs: Seq<AccountId>, removed: Seq<AccountId>, v: AccountId)
    ensures
        without_all(vs, removed).contains(v) == (vs.contains(v) && !removed.contains(v)),
{
    let p = crate::account::not_among(removed);
    let w = vs.filter(p);
    if w.contains(v) {
        vs.lemma_filter_contains_rev(p, v);
        let k = choose|k: int| 0 <= k < w.len() && w[k] == v;
        vs.lemma_filter_pred(p, k);
    }
    if vs.contains(v) && !removed.contains(v) {
        let k = choose|k: int| 0 <= k < vs.len() && vs[k] == v;
        vs.lemma_filter_contains(p, k);
    }
}

/// Taking `x` out after the elements of `marked` is taking out the elements
/// of `marked` and `x`.
proof fn lemma_without_after_without_all(vs: Seq<AccountId>, marked: Seq<AccountId>, x: AccountId)
    ensures
        without(without_all(vs, marked), x) == without_all(vs, marked.push(x)),
    decreases vs.len(),
{
    if vs.len() > 0 {
        let init = vs.drop_last();
        let y = vs.last();
        assert(init.push(y) =~= vs);
        lemma_without_after_without_all(init, marked, x);
        init.lemma_filter_push(y, crate::account::not_among(marked));
        init.lemma_filter_push(y, crate::account::not_among(marked.push(x)));
        without_all(init, marked).lemma_filter_push(y, crate::account::differs_from(x));
        assert(marked.push(x).contains(y) == (marked.contains(y) || y == x)) by {
            if marked.push(x).contains(y) && y != x {
                let k = choose|k: int| 0 <= k < marked.push(x).len() && marked.push(x)[k] == y;
                assert(marked[k] == y);
            }
            if marked.contains(y) {
                let k = choose|k: int| 0 <= k < marked.len() && marked[k] == y;
                assert(marked.push(x)[k] == y);
            }
            if y == x {
                assert(marked.push(x)[marked.len() as int] == y);
            }
        }
    } else {
        assert(without_all(vs, marked) =~= vs);
        assert(without_all(vs, marked.push(x)) =~= vs);
        assert(without(vs, x) =~= vs);
    }
}

/// Taking out more elements leaves no more of the set.
proof fn lemma_without_all_len_monotone(vs: Seq<AccountId>, fewer: Seq<AccountId>, more: Seq<AccountId>)
    requires
        forall|y: AccountId| fewer.contains(y) ==> more.contains(y),
    ensures
        without_all(vs, more).len() <= without_all(vs, fewer).len(),
    decreases vs.len(),
{
    if vs.len() > 0 {
        let init = vs.drop_last();
        let y = vs.last();
        assert(init.push(y) =~= vs);
        lemma_without_all_len_monotone(init, fewer, more);
        init.lemma_filter_push(y, crate::account::not_among(fewer));
        init.lemma_filter_push(y, crate::account::not_among(more));
    }
}

/// A count compared with the minimum is never more than the count itself,
/// and is the count when it fits in a `u32`.
proof fn lemma_as_count(len: nat)
    ensures
        as_count(len) <= len,
        len <= u32::MAX ==> as_count(len) == len,
{
}

/// Law: adding a validator that is not in the set and then removing it, while
/// the set is large enough for the removal, gives back the set it started from.
pub proof fn law_add_then_remove_restores(vs: Seq<AccountId>, id: AccountId, min_authorities: u32)
    requires
        !vs.contains(id),
        as_count(vs.len()) >= min_authorities,
    ensures
        add_outcome(vs, id) == Ok::<Seq<AccountId>, Error>(vs.push(id)),
        remove_outcome(vs.push(id), id, min_authorities) == Ok::<Seq<AccountId>, Error>(vs),
{
    lemma_without_absent(vs, id);
    vs.lemma_filter_push(id, crate::account::differs_from(id));
}

/// Law: removing a validator that is not in the set removes nothing, and is
/// refused only when the set is already below the minimum.
pub proof fn law_remove_absent_keeps_set(vs: Seq<AccountId>, id: AccountId, min_authorities: u32)
    requires
        !vs.contains(id),
    ensures
        as_count(vs.len()) >= min_authorities ==> remove_outcome(vs, id, min_authorities)
            == Ok::<Seq<AccountId>, Error>(vs),
        as_count(vs.len()) < min_authorities ==> remove_outcome(vs, id, min_authorities)
            == Err::<Seq<AccountId>, Error>(Error::TooLowValidatorCount),
{
    lemma_without_absent(vs, id);
}

/// Law: a validator that was just added is in the set, and adding it again is
/// refused as a duplicate.
pub proof fn law_add_is_idempotent_refusal(vs: Seq<AccountId>, id: AccountId)
    ensures
        add_outcome(vs, id) matches Ok(added) ==> added.contains(id),
        add_outcome(vs.push(id), id) == Err::<Seq<AccountId>, Error>(Error::Duplicate),
        add_outcome(vs, id) is Err <==> vs.contains(id),
{
    assert(vs.push(id)[vs.len() as int] == id);
}

/// Law: a removed validator is no longer in the set, and every other
/// validator stays.
pub proof fn law_remove_takes_out_only_the_validator(
    vs: Seq<AccountId>,
    id: AccountId,
    min_authorities: u32,
    other: AccountId,
)
    requires
        remove_outcome(vs, id, min_authorities) is Ok,
    ensures
        remove_outcome(vs, id, min_authorities) matches Ok(rest) && !rest.contains(id) && (other
            != id ==> (rest.contains(other) == vs.contains(other))),
{
    lemma_without_contains(vs, id, id);
    lemma_without_contains(vs, id, other);
}

/// Law: a successful removal never leaves fewer than the configured minimum
/// of validators.
pub proof fn law_removal_respects_minimum(vs: Seq<AccountId>, id: AccountId, min_authorities: u32)
    requires
        remove_outcome(vs, id, min_authorities) is Ok,
    ensures
        remove_outcome(vs, id, min_authorities) matches Ok(rest) && rest.len() >= min_authorities,
{
    lemma_as_count(without(vs, id).len());
}

/// The automatic removal keeps a set without duplicates free of them.
proof fn lemma_auto_remove_distinct(vs: Seq<AccountId>, marked: Seq<AccountId>, min_authorities: u32)
    requires
        vs.no_duplicates(),
    ensures
        auto_remove(vs, marked, min_authorities).no_duplicates(),
    decreases marked.len(),
{
    if marked.len() > 0 {
        lemma_auto_remove_distinct(vs, marked.drop_last(), min_authorities);
        lemma_without_distinct(auto_remove(vs, marked.drop_last(), min_authorities), marked.last());
    }
}

/// Law: a validator set without duplicates keeps having none after a
/// successful addition, a successful removal, or the automatic removal of
/// the offline validators.
pub proof fn law_operations_keep_validators_distinct(
    vs: Seq<AccountId>,
    id: AccountId,
    min_authorities: u32,
    offline: Seq<AccountId>,
)
    requires
        vs.no_duplicates(),
    ensures
        add_outcome(vs, id) matches Ok(added) ==> added.no_duplicates(),
        remove_outcome(vs, id, min_authorities) matches Ok(rest) ==> rest.no_duplicates(),
        auto_remove(vs, offline, min_authorities).no_duplicates(),
{
    if !vs.contains(id) {
        assert forall|a: int, b: int| 0 <= a < b < vs.push(id).len() implies vs.push(id)[a]
            != vs.push(id)[b] by {
            if b == vs.len() {
                assert(vs.contains(vs[a]));
            }
        }
    }
    lemma_without_distinct(vs, id);
    lemma_auto_remove_distinct(vs, offline, min_authorities);
}

/// Law: the automatic removal at session change never takes a set that held
/// at least the minimum below the minimum.
pub proof fn law_session_change_keeps_minimum(vs: Seq<AccountId>, marked: Seq<AccountId>, min_authorities: u32)
    requires
        vs.len() >= min_authorities,
    ensures
        auto_remove(vs, marked, min_authorities).len() >= min_authorities,
    decreases marked.len(),
{
    if marked.len() > 0 {
        law_session_change_keeps_minimum(vs, marked.drop_last(), min_authorities);
        lemma_as_count(without(auto_remove(vs, marked.drop_last(), min_authorities), marked.last()).len());
    }
}

/// Law: at session change, a validator that was not marked offline stays,
/// no validator comes in, and the marks are cleared.
pub proof fn law_session_change_keeps_unmarked(s: PalletState, v: AccountId)
    ensures
        s.validators.contains(v) && !s.offline.contains(v) ==> offline_removed(s).validators.contains(v),
        offline_removed(s).validators.contains(v) ==> s.validators.contains(v),
        offline_removed(s).offline.len() == 0,
{
    lemma_auto_remove_contains(s.validators, s.offline, s.min_authorities, v);
}

/// The automatic removal keeps the unmarked validators and brings in none.
proof fn lemma_auto_remove_contains(vs: Seq<AccountId>, marked: Seq<AccountId>, min_authorities: u32, v: AccountId)
    ensures
        vs.contains(v) && !marked.contains(v) ==> auto_remove(vs, marked, min_authorities).contains(v),
        auto_remove(vs, marked, min_authorities).contains(v) ==> vs.contains(v),
    decreases marked.len(),
{
    if marked.len() > 0 {
        let init = marked.drop_last();
        let x = marked.last();
        lemma_auto_remove_contains(vs, init, min_authorities, v);
        lemma_without_contains(auto_remove(vs, init, min_authorities), x, v);
        if !marked.contains(v) {
            assert(!init.contains(v)) by {
                if init.contains(v) {
                    let k = choose|k: int| 0 <= k < init.len() && init[k] == v;
                    assert(marked[k] == v);
                }
            }
            assert(marked[marked.len() - 1] == x);
        }
    }
}

/// Law: when taking out every validator marked offline still leaves at least
/// the minimum, the session change takes out exactly those validators.
pub proof fn law_session_change_drops_offline(vs: Seq<AccountId>, marked: Seq<AccountId>, min_authorities: u32)
    requires
        vs.len() <= u32::MAX,
        without_all(vs, marked).len() >= min_authorities,
    ensures
        auto_remove(vs, marked, min_authorities) == without_all(vs, marked),
    decreases marked.len(),
{
    if marked.len() == 0 {
        assert(without_all(vs, marked) =~= vs) by {
            lemma_without_all_none(vs, marked);
        }
    } else {
        let init = marked.drop_last();
        let x = marked.last();
        assert(init.push(x) =~= marked);
        assert forall|y: AccountId| init.contains(y) implies marked.contains(y) by {
            let k = choose|k: int| 0 <= k < init.len() && init[k] == y;
            assert(marked[k] == y);
        }
        lemma_without_all_len_monotone(vs, init, marked);
        law_session_change_drops_offline(vs, init, min_authorities);
        lemma_without_after_without_all(vs, init, x);
        lemma_as_count(without_all(vs, marked).len());
    }
}

/// Taking out the elements of an empty list takes out nothing.
proof fn lemma_without_all_none(vs: Seq<AccountId>, marked: Seq<AccountId>)
    requires
        marked.len() == 0,
    ensures
        without_all(vs, marked) == vs,
    decreases vs.len(),
{
    if vs.len() > 0 {
        let init = vs.drop_last();
        assert(init.push(vs.last()) =~= vs);
        lemma_without_all_none(init, marked);
        init.lemma_filter_push(vs.last(), crate::account::not_among(marked));
    }
}

/// Law: a validator named first in an offence report leaves the set at the
/// next session change, when taking out every marked validator still leaves
/// at least the minimum.
pub proof fn law_reported_offender_leaves_at_session_change(
    s: PalletState,
    offenders: Seq<(AccountId, AccountId)>,
    i: int,
)
    requires
        0 <= i < offenders.len(),
        s.validators.len() <= u32::MAX,
        without_all(s.validators, s.offline + offenders.map_values(|p: (AccountId, AccountId)| p.0)).len()
            >= s.min_authorities,
    ensures
        !offline_removed(
            PalletState {
                offline: s.offline + offenders.map_values(|p: (AccountId, AccountId)| p.0),
                ..s
            },
        ).validators.contains(offenders[i].0),
{
    let off = s.offline + offenders.map_values(|p: (AccountId, AccountId)| p.0);
    assert(off[s.offline.len() + i] == offenders[i].0);
    law_session_change_drops_offline(s.validators, off, s.min_authorities);
    lemma_without_all_contains(s.validators, off, offenders[i].0);
}

/// The number of entries a removal takes out is the number of times `id`
/// occurs in the set.
proof fn lemma_without_len_count(vs: Seq<AccountId>, id: AccountId)
    ensures
        without(vs, id).len() + vs.to_multiset().count(id) == vs.len(),
    decreases vs.len(),
{
    broadcast use vstd::seq_lib::to_multiset_build, vstd::multiset::group_multiset_axioms;

    if vs.len() == 0 {
        assert(vs.to_multiset() =~= vstd::multiset::Multiset::<AccountId>::empty()) by {
            broadcast use vstd::seq_lib::to_multiset_len;
        }
    } else {
        let init = vs.drop_last();
        let x = vs.last();
        assert(init.push(x) =~= vs);
        lemma_without_len_count(init, id);
        init.lemma_filter_push(x, crate::account::differs_from(id));
        assert(vs.to_multiset() =~= init.to_multiset().insert(x));
    }
}

/// Law: taking a validator out of the set keeps the others in their order:
/// nothing comes from the empty set, an appended validator other than `id`
/// stays at the end, and an appended `id` goes.
pub proof fn law_without_keeps_others_in_order(vs: Seq<AccountId>, id: AccountId, x: AccountId)
    ensures
        without(Seq::<AccountId>::empty(), id) == Seq::<AccountId>::empty(),
        x != id ==> without(vs.push(x), id) == without(vs, id).push(x),
        without(vs.push(id), id) == without(vs, id),
{
    vs.lemma_filter_push(x, crate::account::differs_from(id));
    vs.lemma_filter_push(id, crate::account::differs_from(id));
    assert(Seq::<AccountId>::empty().filter(crate::account::differs_from(id)) =~= Seq::<AccountId>::empty()) by {
        reveal(Seq::filter);
    }
}

/// Law: a root removal succeeds exactly when the validators other than `id`
/// number at least the minimum (cast as the pallet casts counts), wherever
/// `id` stands in the set and however often; the set left holds every other
/// validator and no `id`, one entry fewer for each occurrence of `id`.
pub proof fn law_remove_anywhere(vs: Seq<AccountId>, id: AccountId, min_authorities: u32, other: AccountId)
    ensures
        remove_outcome(vs, id, min_authorities) is Ok <==> as_count(
            (vs.len() - vs.to_multiset().count(id)) as nat,
        ) >= min_authorities,
        remove_outcome(vs, id, min_authorities) is Err ==> remove_outcome(vs, id, min_authorities)
            == Err::<Seq<AccountId>, Error>(Error::TooLowValidatorCount),
        remove_outcome(vs, id, min_authorities) matches Ok(rest) ==> {
            &&& rest.len() == vs.len() - vs.to_multiset().count(id)
            &&& !rest.contains(id)
            &&& (other != id ==> rest.contains(other) == vs.contains(other))
        },
{
    lemma_without_len_count(vs, id);
    lemma_without_contains(vs, id, id);
    lemma_without_contains(vs, id, other);
}

/// Law: removing a validator from the middle of the set behaves as removing
/// it from the end: the outcome depends on which validators the set holds
/// around `id`, not on where `id` stands.
pub proof fn law_remove_position_independent(a: Seq<AccountId>, b: Seq<AccountId>, id: AccountId, min_authorities: u32)
    ensures
        (remove_outcome(a + seq![id] + b, id, min_authorities) is Ok) == (remove_outcome(
            a + b + seq![id],
            id,
            min_authorities,
        ) is Ok),
        remove_outcome(a + seq![id] + b, id, min_authorities) is Ok ==> remove_outcome(
            a + seq![id] + b,
            id,
            min_authorities,
        ) == Ok::<Seq<AccountId>, Error>(without(a, id) + without(b, id)),
{
    let p = crate::account::differs_from(id);
    let one: Seq<AccountId> = seq![id];
    assert(one =~= Seq::<AccountId>::empty().push(id));
    Seq::<AccountId>::empty().lemma_filter_push(id, p);
    assert(Seq::<AccountId>::empty().filter(p) =~= Seq::<AccountId>::empty()) by {
        reveal(Seq::filter);
    }
    assert(without(one, id) =~= Seq::<AccountId>::empty());
    Seq::filter_distributes_over_add(a + one, b, p);
    Seq::filter_distributes_over_add(a, one, p);
    Seq::filter_distributes_over_add(a + b, one, p);
    Seq::filter_distributes_over_add(a, b, p);
    assert(without(a + one + b, id) =~= without(a, id) + without(b, id));
    assert(without(a + b + one, id) =~= without(a, id) + without(b, id));
}

} // verus!

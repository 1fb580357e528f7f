use elysium::account::AccountId;
use elysium::origin::{DispatchError, RawOrigin};
use elysium::validator_set::{Config, Error, Event, GenesisConfig, OffenceError, Pallet, ValidatorOf};
use elysium::weights::Weight;

fn acc(n: u8) -> AccountId {
    AccountId::new([n; 32])
}

fn pallet(min: u32, initial: &[u8]) -> Pallet {
    let mut p = Pallet::new(Config { min_authorities: min });
    let genesis = GenesisConfig { initial_validators: initial.iter().map(|n| acc(*n)).collect() };
    genesis.build(&mut p);
    p
}

#[test]
fn genesis_puts_initial_validators() {
    let p = pallet(1, &[1, 2, 3]);
    assert_eq!(p.validators(), vec![acc(1), acc(2), acc(3)]);
    assert!(p.offline_validators().is_empty());
    assert_eq!(p.event_count(), 0);
    assert_eq!(p.min_authorities(), 1);
}

#[test]
fn default_validator_genesis_is_empty() {
    let g = GenesisConfig::default();
    assert!(g.initial_validators.is_empty());
}

#[test]
fn add_validator_appends_and_deposits_event() {
    let mut p = pallet(1, &[1, 2]);
    assert_eq!(p.add_validator(RawOrigin::Root, acc(3)), Ok(()));
    assert_eq!(p.validators(), vec![acc(1), acc(2), acc(3)]);
    assert_eq!(p.event_count(), 1);
    assert_eq!(p.event(0), Event::ValidatorAdditionInitiated(acc(3)));
}

#[test]
fn add_duplicate_validator_is_refused() {
    let mut p = pallet(1, &[1, 2]);
    assert_eq!(p.add_validator(RawOrigin::Root, acc(2)), Err(DispatchError::ValidatorSet(Error::Duplicate)));
    assert_eq!(p.validators(), vec![acc(1), acc(2)]);
    assert_eq!(p.event_count(), 0);
}

#[test]
fn only_root_may_add_or_remove() {
    let mut p = pallet(0, &[1, 2]);
    assert_eq!(p.add_validator(RawOrigin::Signed(acc(1)), acc(3)), Err(DispatchError::BadOrigin));
    assert_eq!(p.remove_validator(RawOrigin::Unsigned, acc(1)), Err(DispatchError::BadOrigin));
    assert_eq!(p.validators(), vec![acc(1), acc(2)]);
    assert_eq!(p.event_count(), 0);
}

#[test]
fn remove_validator_takes_out_every_occurrence() {
    let mut p = pallet(1, &[1, 2, 1, 3]);
    assert_eq!(p.remove_validator(RawOrigin::Root, acc(1)), Ok(()));
    assert_eq!(p.validators(), vec![acc(2), acc(3)]);
    assert_eq!(p.event(0), Event::ValidatorRemovalInitiated(acc(1)));
}

#[test]
fn remove_below_minimum_is_refused() {
    let mut p = pallet(2, &[1, 2]);
    assert_eq!(
        p.remove_validator(RawOrigin::Root, acc(1)),
        Err(DispatchError::ValidatorSet(Error::TooLowValidatorCount))
    );
    assert_eq!(p.validators(), vec![acc(1), acc(2)]);
    // one fewer than three still meets a minimum of two
    let mut q = pallet(2, &[1, 2, 3]);
    assert_eq!(q.do_remove_validator(acc(1)), Ok(()));
    assert_eq!(q.validators(), vec![acc(2), acc(3)]);
}

#[test]
fn remove_from_empty_set_checks_count_left() {
    let mut p = pallet(0, &[]);
    assert_eq!(p.do_remove_validator(acc(9)), Ok(()));
    let mut q = pallet(1, &[]);
    assert_eq!(q.do_remove_validator(acc(9)), Err(Error::TooLowValidatorCount));
}

#[test]
fn remove_absent_validator_still_succeeds() {
    let mut p = pallet(1, &[1, 2]);
    assert_eq!(p.do_remove_validator(acc(7)), Ok(()));
    assert_eq!(p.validators(), vec![acc(1), acc(2)]);
    assert_eq!(p.event(0), Event::ValidatorRemovalInitiated(acc(7)));
}

#[test]
fn add_then_remove_restores_the_set() {
    let mut p = pallet(1, &[1, 2]);
    assert_eq!(p.do_add_validator(acc(5)), Ok(()));
    assert_eq!(p.do_remove_validator(acc(5)), Ok(()));
    assert_eq!(p.validators(), vec![acc(1), acc(2)]);
}

#[test]
fn offence_report_marks_and_session_removes() {
    let mut p = pallet(3, &[1, 2, 3, 4]);
    let r = p.report_offence(vec![acc(9)], vec![(acc(2), acc(2)), (acc(4), acc(4))]);
    assert_eq!(r, Ok::<(), OffenceError>(()));
    assert_eq!(p.offline_validators(), vec![acc(2), acc(4)]);
    let next = p.new_session(1);
    // 2 goes (three stay); 4 would leave two, below the minimum of three
    assert_eq!(next, Some(vec![acc(1), acc(3), acc(4)]));
    assert_eq!(p.validators(), vec![acc(1), acc(3), acc(4)]);
    assert!(p.offline_validators().is_empty());
}

#[test]
fn mark_for_removal_then_remove_offline() {
    let mut p = pallet(1, &[1, 2, 3]);
    p.mark_for_removal(acc(3));
    p.mark_for_removal(acc(8));
    p.remove_offline_validators();
    assert_eq!(p.validators(), vec![acc(1), acc(2)]);
    assert!(p.offline_validators().is_empty());
}

#[test]
fn session_hooks_and_estimates() {
    let mut p = pallet(1, &[1]);
    p.start_session(3);
    p.end_session(3);
    assert_eq!(p.validators(), vec![acc(1)]);
    assert_eq!(Pallet::average_session_length(), 0);
    assert_eq!(Pallet::estimate_current_session_progress(10), (None, Weight::zero()));
    assert_eq!(Pallet::estimate_next_session_rotation(10), (None, Weight::zero()));
    assert!(!Pallet::is_known_offence(&vec![(acc(1), acc(1))], 5));
    assert_eq!(ValidatorOf::convert(acc(4)), Some(acc(4)));
}

#[test]
fn offline_removal_takes_all_when_there_is_room() {
    let mut p = pallet(2, &[1, 2, 3, 4]);
    p.mark_for_removal(acc(4));
    p.mark_for_removal(acc(1));
    assert_eq!(p.new_session(2), Some(vec![acc(2), acc(3)]));
}

#[test]
fn offline_removal_below_minimum_keeps_set() {
    // the initial count may already be below the minimum
    let mut p = pallet(3, &[1, 2]);
    p.mark_for_removal(acc(1));
    assert_eq!(p.new_session(2), Some(vec![acc(1), acc(2)]));
    assert!(p.offline_validators().is_empty());
}

#[test]
fn remove_absent_validator_at_minimum_succeeds() {
    let mut p = pallet(2, &[1, 2]);
    assert_eq!(p.remove_validator(RawOrigin::Root, acc(7)), Ok(()));
    assert_eq!(p.validators(), vec![acc(1), acc(2)]);
    assert_eq!(p.event(0), Event::ValidatorRemovalInitiated(acc(7)));
}

#[test]
fn remove_counts_every_occurrence_against_minimum() {
    let mut p = pallet(3, &[1, 2, 1, 3]);
    assert_eq!(p.do_remove_validator(acc(1)), Err(Error::TooLowValidatorCount));
    assert_eq!(p.validators(), vec![acc(1), acc(2), acc(1), acc(3)]);
}

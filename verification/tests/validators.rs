use iris_session::accounts::{clone_accounts, contains, is_distinct, remove_account, select_by_membership};
use iris_session::pallet::{GenesisConfig, Pallet};
use iris_session::registry::ValidatorRegistry;
use iris_session::types::{ActiveEraInfo, Config, Error, Event, Origin, ValidatorOf};

const A: u64 = 1;
const B: u64 = 2;
const C: u64 = 3;
const D: u64 = 4;

fn limits(min_authorities: u32, max_dead_session: u32) -> Config {
    Config { min_authorities, max_dead_session }
}

fn started(validators: Vec<u64>, config: Config) -> Pallet {
    let genesis = GenesisConfig { initial_validators: validators };
    assert!(genesis.is_valid());
    assert!(config.is_usable());
    genesis.build(config)
}

#[test]
fn genesis_enters_validators_as_active_and_approved() {
    let pallet = started(vec![A, B], limits(2, 3));
    assert_eq!(pallet.validators(), vec![A, B]);
    assert_eq!(pallet.approved_validators(), vec![A, B]);
    assert_eq!(pallet.validators_to_remove().len(), 0);
    assert_eq!(pallet.current_era(), None);
    assert_eq!(pallet.active_era(), None);
    assert_eq!(pallet.events().len(), 0);
    assert_eq!(pallet.unproductive_sessions(A), 0);
    assert_eq!(pallet.config(), limits(2, 3));
}

#[test]
fn genesis_wants_two_distinct_validators() {
    assert!(!GenesisConfig { initial_validators: vec![] }.is_valid());
    assert!(!GenesisConfig { initial_validators: vec![A] }.is_valid());
    assert!(!GenesisConfig { initial_validators: vec![A, A] }.is_valid());
    assert!(!GenesisConfig { initial_validators: vec![A, B, A] }.is_valid());
    assert!(GenesisConfig { initial_validators: vec![A, B] }.is_valid());
    assert!(!limits(1, u32::MAX).is_usable());
    assert!(limits(1, u32::MAX - 1).is_usable());
}

#[test]
fn add_validator_appends_approves_and_announces() {
    let mut pallet = started(vec![A, B], limits(2, 3));
    assert_eq!(pallet.add_validator(Origin::Root, C), Ok(()));
    assert_eq!(pallet.validators(), vec![A, B, C]);
    assert_eq!(pallet.approved_validators(), vec![A, B, C]);
    assert_eq!(pallet.unproductive_sessions(C), 0);
    assert_eq!(pallet.events(), &vec![Event::ValidatorAdditionInitiated(C)]);
}

#[test]
fn add_validator_twice_is_a_duplicate() {
    let mut pallet = started(vec![A, B], limits(2, 3));
    assert_eq!(pallet.add_validator(Origin::Root, C), Ok(()));
    assert_eq!(pallet.add_validator(Origin::Root, D), Ok(()));
    assert_eq!(pallet.add_validator(Origin::Root, C), Err(Error::Duplicate));
    assert_eq!(pallet.add_validator(Origin::Root, A), Err(Error::Duplicate));
    assert_eq!(pallet.validators(), vec![A, B, C, D]);
    assert_eq!(pallet.approved_validators(), vec![A, B, C, D]);
    assert_eq!(pallet.events().len(), 2);
    assert_eq!(pallet.remove_validator(Origin::Root, C), Ok(()));
    assert_eq!(pallet.add_validator(Origin::Root, C), Ok(()));
    assert_eq!(pallet.validators(), vec![A, B, D, C]);
}

#[test]
fn add_validator_needs_the_privileged_origin() {
    let mut pallet = started(vec![A, B], limits(2, 3));
    assert_eq!(pallet.add_validator(Origin::Signed(A), C), Err(Error::BadOrigin));
    assert_eq!(pallet.add_validator(Origin::Unsigned, C), Err(Error::BadOrigin));
    assert_eq!(pallet.remove_validator(Origin::Signed(A), B), Err(Error::BadOrigin));
    assert_eq!(pallet.validators(), vec![A, B]);
    assert_eq!(pallet.events().len(), 0);
}

#[test]
fn add_validator_that_is_approved_already_succeeds() {
    let mut pallet = started(vec![A, B, C], limits(2, 0));
    pallet.start_session(1);
    pallet.end_session(1);
    pallet.end_session(1);
    assert_eq!(pallet.validators(), vec![B, C]);
    assert_eq!(pallet.approved_validators(), vec![A, B, C]);
    assert_eq!(pallet.unproductive_sessions(A), 1);
    assert_eq!(pallet.add_validator(Origin::Root, A), Ok(()));
    assert_eq!(pallet.validators(), vec![B, C, A]);
    assert_eq!(pallet.approved_validators(), vec![A, B, C]);
    assert_eq!(pallet.unproductive_sessions(A), 0);
}

#[test]
fn removal_below_minimum_is_rejected_and_changes_nothing() {
    let mut pallet = started(vec![A, B], limits(2, 3));
    assert_eq!(pallet.remove_validator(Origin::Root, A), Err(Error::TooLowValidatorCount));
    assert_eq!(pallet.validators(), vec![A, B]);
    assert_eq!(pallet.approved_validators(), vec![A, B]);
    assert_eq!(pallet.events().len(), 0);
}

#[test]
fn removal_takes_validator_and_approval_away() {
    let mut pallet = started(vec![A, B, C], limits(2, 3));
    assert_eq!(pallet.remove_validator(Origin::Root, B), Ok(()));
    assert_eq!(pallet.validators(), vec![A, C]);
    assert_eq!(pallet.approved_validators(), vec![A, C]);
    assert_eq!(pallet.events(), &vec![Event::ValidatorRemovalInitiated(B)]);
    assert!(pallet.validators().len() >= 2);
    assert_eq!(pallet.remove_validator(Origin::Root, A), Err(Error::TooLowValidatorCount));
    assert_eq!(pallet.validators(), vec![A, C]);
}

#[test]
fn removal_of_an_inactive_account_leaves_the_validators() {
    let mut pallet = started(vec![A, B], limits(2, 3));
    assert_eq!(pallet.remove_validator(Origin::Root, D), Ok(()));
    assert_eq!(pallet.validators(), vec![A, B]);
    assert_eq!(pallet.approved_validators(), vec![A, B]);
    assert_eq!(pallet.events(), &vec![Event::ValidatorRemovalInitiated(D)]);
    assert_eq!(pallet.remove_validator(Origin::Root, A), Err(Error::TooLowValidatorCount));
    let mut pallet = started(vec![A, B, C], limits(2, 3));
    assert_eq!(pallet.remove_validator(Origin::Root, D), Ok(()));
    assert_eq!(pallet.validators(), vec![A, B, C]);
}

#[test]
fn removal_of_an_inactive_account_takes_its_approval_away() {
    let mut pallet = started(vec![A, B, C], limits(2, 0));
    pallet.end_session(0);
    pallet.end_session(0);
    assert_eq!(pallet.validators(), vec![B, C]);
    assert_eq!(pallet.approved_validators(), vec![A, B, C]);
    assert_eq!(pallet.remove_validator(Origin::Root, A), Ok(()));
    assert_eq!(pallet.validators(), vec![B, C]);
    assert_eq!(pallet.approved_validators(), vec![B, C]);
    assert_eq!(pallet.add_validator_again(Origin::Signed(A), A), Err(Error::ValidatorNotApproved));
}

#[test]
fn removal_below_the_minimum_is_rejected_for_an_inactive_account_too() {
    let mut pallet = started(vec![A, B, C], limits(3, 3));
    assert_eq!(pallet.report_offence(&vec![(C, C)]), Ok(()));
    assert_eq!(pallet.new_session(1), Some(vec![A, B]));
    assert_eq!(pallet.remove_validator(Origin::Root, D), Err(Error::TooLowValidatorCount));
    assert_eq!(pallet.remove_validator(Origin::Root, A), Err(Error::TooLowValidatorCount));
    assert_eq!(pallet.validators(), vec![A, B]);
    assert_eq!(pallet.events().len(), 0);
}

#[test]
fn rejoin_needs_the_validator_itself() {
    let mut pallet = started(vec![A, B, C], limits(2, 0));
    pallet.end_session(0);
    pallet.end_session(0);
    assert_eq!(pallet.validators(), vec![B, C]);
    assert_eq!(pallet.add_validator_again(Origin::Signed(B), A), Err(Error::BadOrigin));
    assert_eq!(pallet.add_validator_again(Origin::Root, A), Err(Error::BadOrigin));
    assert_eq!(pallet.add_validator_again(Origin::Unsigned, A), Err(Error::BadOrigin));
    assert_eq!(pallet.validators(), vec![B, C]);
    assert_eq!(pallet.add_validator_again(Origin::Signed(A), A), Ok(()));
    assert_eq!(pallet.validators(), vec![B, C, A]);
    assert_eq!(pallet.unproductive_sessions(A), 0);
    assert_eq!(pallet.events(), &vec![Event::ValidatorAdditionInitiated(A)]);
}

#[test]
fn rejoin_needs_an_approval() {
    let mut pallet = started(vec![A, B], limits(2, 3));
    assert_eq!(pallet.add_validator_again(Origin::Signed(D), D), Err(Error::ValidatorNotApproved));
    assert_eq!(pallet.validators(), vec![A, B]);
    let mut pallet = started(vec![A, B, C], limits(2, 3));
    assert_eq!(pallet.remove_validator(Origin::Root, C), Ok(()));
    assert_eq!(pallet.add_validator_again(Origin::Signed(C), C), Err(Error::ValidatorNotApproved));
    assert_eq!(pallet.validators(), vec![A, B]);
}

#[test]
fn rejoin_of_an_active_validator_is_a_duplicate() {
    let mut pallet = started(vec![A, B], limits(2, 3));
    assert_eq!(pallet.add_validator_again(Origin::Signed(A), A), Err(Error::Duplicate));
    assert_eq!(pallet.validators(), vec![A, B]);
}

#[test]
fn offline_validators_leave_at_the_next_session_whatever_the_minimum() {
    let mut pallet = started(vec![A, B, C], limits(3, 3));
    assert_eq!(pallet.report_offence(&vec![(B, B), (C, C)]), Ok(()));
    assert_eq!(pallet.validators_to_remove(), vec![B, C]);
    assert_eq!(pallet.validators(), vec![A, B, C]);
    assert!(!pallet.is_known_offence(&vec![(B, B)], 0));
    assert_eq!(pallet.new_session(1), Some(vec![A]));
    assert_eq!(pallet.validators(), vec![A]);
    assert_eq!(pallet.validators_to_remove().len(), 0);
    assert_eq!(pallet.approved_validators(), vec![A, B, C]);
    assert_eq!(pallet.current_era(), Some(1));
    assert_eq!(pallet.active_era(), None);
}

#[test]
fn session_start_sets_the_active_era() {
    let mut pallet = started(vec![A, B], limits(2, 3));
    pallet.start_session(6);
    assert_eq!(pallet.active_era(), Some(6));
    assert_eq!(pallet.current_era(), None);
    assert_eq!(pallet.new_session(7), Some(vec![A, B]));
    assert_eq!(pallet.current_era(), Some(7));
    assert_eq!(pallet.active_era(), Some(6));
}

#[test]
fn unproductive_validator_is_counted_then_removed() {
    let mut pallet = started(vec![A, B, C], limits(2, 1));
    pallet.start_session(1);
    assert_eq!(pallet.submit_ipfs_pin_result(Origin::Signed(A), 9, A), Err(Error::NotACandidate));
    for who in [A, B] {
        assert_eq!(pallet.join_storage_pool(Origin::Signed(who), 9, true), Ok(()));
        assert_eq!(pallet.submit_ipfs_pin_result(Origin::Signed(who), 9, who), Ok(()));
    }
    assert_eq!(pallet.total_session_rewards(1), vec![A, B]);
    pallet.end_session(1);
    assert_eq!(pallet.validators(), vec![A, B, C]);
    assert_eq!(pallet.unproductive_sessions(C), 1);
    assert_eq!(pallet.unproductive_sessions(A), 0);
    pallet.end_session(1);
    assert_eq!(pallet.validators(), vec![A, B, C]);
    assert_eq!(pallet.unproductive_sessions(C), 2);
    pallet.end_session(1);
    assert_eq!(pallet.validators(), vec![A, B]);
    assert_eq!(pallet.unproductive_sessions(C), 2);
    assert_eq!(pallet.approved_validators(), vec![A, B, C]);
    assert_eq!(pallet.events().len(), 2);
}

#[test]
fn sweep_stops_at_the_minimum() {
    let mut pallet = started(vec![A, B, C], limits(2, 0));
    pallet.end_session(3);
    assert_eq!(pallet.validators(), vec![A, B, C]);
    assert_eq!(pallet.unproductive_sessions(A), 1);
    assert_eq!(pallet.unproductive_sessions(B), 1);
    assert_eq!(pallet.unproductive_sessions(C), 1);
    pallet.end_session(3);
    assert_eq!(pallet.validators(), vec![B, C]);
    pallet.end_session(3);
    assert_eq!(pallet.validators(), vec![B, C]);
    assert_eq!(pallet.unproductive_sessions(B), 1);
}

#[test]
fn productive_era_does_not_reset_the_count() {
    let mut pallet = started(vec![A, B], limits(2, 5));
    pallet.start_session(1);
    pallet.end_session(1);
    assert_eq!(pallet.unproductive_sessions(A), 1);
    pallet.start_session(2);
    assert_eq!(pallet.submit_ipfs_add_results(Origin::Signed(A), 4, Ok::<(), ()>(())), Ok(()));
    pallet.end_session(2);
    assert_eq!(pallet.unproductive_sessions(A), 1);
    pallet.start_session(3);
    pallet.end_session(3);
    assert_eq!(pallet.unproductive_sessions(A), 2);
}

#[test]
fn registry_operations() {
    let mut registry = ValidatorRegistry::new();
    registry.initialize_validators(&vec![A, B, C]);
    assert_eq!(registry.validator_count(), 3);
    assert!(registry.is_validator(B));
    assert!(!registry.is_validator(D));
    assert!(registry.is_approved(C));
    assert_eq!(registry.do_add_validator(B), Err(Error::Duplicate));
    assert_eq!(registry.do_add_validator(D), Ok(()));
    assert_eq!(registry.approve_validator(A), Err(Error::Duplicate));
    assert_eq!(registry.approve_validator(D), Ok(()));
    assert_eq!(registry.approved_validators(), vec![A, B, C, D]);
    registry.unapprove_validator(B);
    assert_eq!(registry.approved_validators(), vec![A, C, D]);
    assert!(registry.may_remove(A, 3));
    assert!(!registry.may_remove(A, 4));
    assert!(registry.may_remove(9, 4));
    assert!(!registry.may_remove(9, 5));
    assert_eq!(registry.do_remove_validator(9, 5), Err(Error::TooLowValidatorCount));
    assert_eq!(registry.do_remove_validator(9, 4), Ok(()));
    assert_eq!(registry.validators(), vec![A, B, C, D]);
    assert_eq!(registry.do_remove_validator(A, 4), Err(Error::TooLowValidatorCount));
    assert_eq!(registry.do_remove_validator(A, 3), Ok(()));
    assert_eq!(registry.validators(), vec![B, C, D]);
    registry.mark_for_removal(C);
    registry.mark_for_removal(A);
    assert_eq!(registry.validators_to_remove(), vec![C, A]);
    registry.remove_offline_validators();
    assert_eq!(registry.validators(), vec![B, D]);
    assert_eq!(registry.validators_to_remove().len(), 0);
    registry.mark_dead_validators(&vec![B], &limits(1, 0));
    assert_eq!(registry.unproductive_sessions(D), 1);
    assert_eq!(registry.unproductive_sessions(B), 0);
    registry.mark_dead_validators(&vec![B], &limits(1, 0));
    assert_eq!(registry.validators(), vec![B]);
    let empty = ValidatorRegistry::new();
    assert!(empty.may_remove(A, 0));
    assert!(!empty.may_remove(A, 1));
}

#[test]
fn account_lists() {
    let list = vec![5, 6, 7, 6];
    assert!(contains(&list, 6));
    assert!(!contains(&list, 8));
    assert!(!is_distinct(&list));
    assert!(is_distinct(&vec![5, 6, 7]));
    assert!(is_distinct(&Vec::new()));
    assert_eq!(clone_accounts(&list), list);
    assert_eq!(remove_account(&list, 6), vec![5, 7]);
    assert_eq!(remove_account(&list, 9), list);
    assert_eq!(select_by_membership(&list, &vec![6, 5, 1], true), vec![5, 6, 6]);
    assert_eq!(select_by_membership(&list, &vec![6, 5, 1], false), vec![7]);
}

#[test]
fn validator_of_is_the_account() {
    assert_eq!(ValidatorOf::convert(17), Some(17));
    let info = ActiveEraInfo { index: 2, start: None };
    assert_eq!(info.index, 2);
    assert_eq!(info.start, None);
}

#[test]
fn session_length_is_not_estimated() {
    assert_eq!(Pallet::average_session_length(), 0);
    assert_eq!(Pallet::estimate_current_session_progress(12), (None, 0));
    assert_eq!(Pallet::estimate_next_session_rotation(12), (None, 0));
}

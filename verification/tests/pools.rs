use iris_session::pallet::{GenesisConfig, Pallet, PinRequest};
use iris_session::pools::StoragePools;
use iris_session::types::{Config, Error, Event, Origin};

const X: u32 = 11;
const Y: u32 = 12;
const OWNER: u64 = 100;
const C: u64 = 7;
const D: u64 = 8;

fn started() -> Pallet {
    let genesis = GenesisConfig { initial_validators: vec![1, 2] };
    assert!(genesis.is_valid());
    genesis.build(Config { min_authorities: 2, max_dead_session: 3 })
}

#[test]
fn pin_request_names_what_the_ledger_gets() {
    let pallet = started();
    assert_eq!(
        pallet.pin_request(Origin::Signed(C), OWNER, X),
        Ok(PinRequest { who: C, owner: OWNER, asset_id: X })
    );
    assert_eq!(pallet.pin_request(Origin::Unsigned, OWNER, X), Err(Error::BadOrigin));
    assert_eq!(pallet.pin_request(Origin::Root, OWNER, X), Err(Error::BadOrigin));
}

#[test]
fn join_enters_the_candidate_and_announces() {
    let mut pallet = started();
    assert_eq!(pallet.join_storage_pool(Origin::Signed(C), X, true), Ok(()));
    assert_eq!(pallet.candidate_storage_providers(X), vec![C]);
    assert_eq!(pallet.candidate_storage_providers(Y).len(), 0);
    assert_eq!(pallet.storage_providers(X).len(), 0);
    assert_eq!(pallet.pinners(X).len(), 0);
    assert_eq!(pallet.events(), &vec![Event::RequestJoinStoragePoolSuccess(C, X)]);
}

#[test]
fn join_twice_is_rejected() {
    let mut pallet = started();
    assert_eq!(pallet.join_storage_pool(Origin::Signed(C), X, true), Ok(()));
    assert_eq!(pallet.pin_request(Origin::Signed(C), OWNER, X), Err(Error::AlreadyACandidate));
    assert_eq!(pallet.join_storage_pool(Origin::Signed(C), X, true), Err(Error::AlreadyACandidate));
    assert_eq!(pallet.join_storage_pool(Origin::Signed(C), Y, true), Ok(()));
    assert_eq!(pallet.candidate_storage_providers(X), vec![C]);
    assert_eq!(pallet.events().len(), 2);
}

#[test]
fn join_of_a_provider_is_rejected() {
    let mut pallet = started();
    assert_eq!(pallet.join_storage_pool(Origin::Signed(C), X, true), Ok(()));
    assert_eq!(pallet.submit_ipfs_pin_result(Origin::Signed(1), X, C), Ok(()));
    assert_eq!(pallet.new_session(1), Some(vec![1, 2]));
    assert_eq!(pallet.pin_request(Origin::Signed(C), OWNER, X), Err(Error::AlreadyPinned));
    assert_eq!(pallet.join_storage_pool(Origin::Signed(C), X, true), Err(Error::AlreadyPinned));
    assert_eq!(pallet.candidate_storage_providers(X).len(), 0);
}

#[test]
fn join_fails_when_the_ledger_refuses() {
    let mut pallet = started();
    assert_eq!(pallet.join_storage_pool(Origin::Signed(C), X, false), Err(Error::CantCreateRequest));
    assert_eq!(pallet.candidate_storage_providers(X).len(), 0);
    assert_eq!(pallet.events().len(), 0);
    assert_eq!(pallet.join_storage_pool(Origin::Unsigned, X, true), Err(Error::BadOrigin));
}

#[test]
fn confirm_pin_needs_a_candidate_that_has_not_pinned() {
    let mut pallet = started();
    pallet.start_session(1);
    assert_eq!(pallet.submit_ipfs_pin_result(Origin::Signed(1), X, C), Err(Error::NotACandidate));
    assert_eq!(pallet.join_storage_pool(Origin::Signed(C), X, true), Ok(()));
    assert_eq!(pallet.submit_ipfs_pin_result(Origin::Unsigned, X, C), Err(Error::BadOrigin));
    assert_eq!(pallet.submit_ipfs_pin_result(Origin::Signed(1), Y, C), Err(Error::NotACandidate));
    assert_eq!(pallet.submit_ipfs_pin_result(Origin::Signed(1), X, C), Ok(()));
    assert_eq!(pallet.pinners(X), vec![C]);
    assert_eq!(pallet.submit_ipfs_pin_result(Origin::Signed(1), X, C), Err(Error::AlreadyPinned));
    assert_eq!(pallet.pinners(X), vec![C]);
    assert_eq!(pallet.eras_reward_points(1, X).total(), 1);
    assert_eq!(pallet.eras_reward_points(1, X).individual(C), 1);
    assert_eq!(pallet.total_session_rewards(1), vec![C]);
}

#[test]
fn pinned_candidate_becomes_provider_at_rotation() {
    let mut pallet = started();
    assert_eq!(pallet.join_storage_pool(Origin::Signed(C), X, true), Ok(()));
    assert_eq!(pallet.submit_ipfs_pin_result(Origin::Signed(C), X, C), Ok(()));
    assert_eq!(pallet.new_session(1), Some(vec![1, 2]));
    assert_eq!(pallet.storage_providers(X), vec![C]);
    assert_eq!(pallet.candidate_storage_providers(X), Vec::<u64>::new());
    assert_eq!(pallet.pinners(X), vec![C]);
}

#[test]
fn promoted_candidates_follow_the_providers_of_before_each_listed_once() {
    let mut pallet = started();
    assert_eq!(pallet.join_storage_pool(Origin::Signed(D), X, true), Ok(()));
    assert_eq!(pallet.submit_ipfs_pin_result(Origin::Signed(1), X, D), Ok(()));
    assert_eq!(pallet.new_session(1), Some(vec![1, 2]));
    assert_eq!(pallet.storage_providers(X), vec![D]);
    assert_eq!(pallet.join_storage_pool(Origin::Signed(C), X, true), Ok(()));
    assert_eq!(pallet.join_storage_pool(Origin::Signed(9), X, true), Ok(()));
    assert_eq!(pallet.submit_ipfs_pin_result(Origin::Signed(1), X, 9), Ok(()));
    assert_eq!(pallet.submit_ipfs_pin_result(Origin::Signed(1), X, C), Ok(()));
    assert_eq!(pallet.new_session(2), Some(vec![1, 2]));
    assert_eq!(pallet.storage_providers(X), vec![D, C, 9]);
    assert_eq!(pallet.candidate_storage_providers(X).len(), 0);
    assert_eq!(pallet.new_session(3), Some(vec![1, 2]));
    assert_eq!(pallet.storage_providers(X), vec![D, C, 9]);
}

#[test]
fn rejected_pin_and_refused_report_need_no_room() {
    let mut pallet = started();
    pallet.start_session(1);
    assert_eq!(pallet.check_pin(X, C), Err(Error::NotACandidate));
    assert_eq!(pallet.submit_ipfs_pin_result(Origin::Signed(1), X, C), Err(Error::NotACandidate));
    assert_eq!(pallet.join_storage_pool(Origin::Signed(C), X, true), Ok(()));
    assert_eq!(pallet.check_pin(X, C), Ok(()));
    assert_eq!(pallet.submit_ipfs_pin_result(Origin::Unsigned, X, C), Err(Error::BadOrigin));
    assert_eq!(pallet.submit_ipfs_pin_result(Origin::Signed(1), X, C), Ok(()));
    assert_eq!(pallet.check_pin(X, C), Err(Error::AlreadyPinned));
    assert_eq!(pallet.submit_ipfs_pin_result(Origin::Signed(1), X, C), Err(Error::AlreadyPinned));
    assert_eq!(pallet.eras_reward_points(1, X).total(), 1);
}

#[test]
fn unpinned_candidate_is_dropped_at_rotation() {
    let mut pallet = started();
    assert_eq!(pallet.join_storage_pool(Origin::Signed(C), X, true), Ok(()));
    assert_eq!(pallet.join_storage_pool(Origin::Signed(D), X, true), Ok(()));
    assert_eq!(pallet.submit_ipfs_pin_result(Origin::Signed(1), X, D), Ok(()));
    assert_eq!(pallet.new_session(1), Some(vec![1, 2]));
    assert_eq!(pallet.storage_providers(X), vec![D]);
    assert_eq!(pallet.candidate_storage_providers(X).len(), 0);
    assert_eq!(pallet.join_storage_pool(Origin::Signed(C), X, true), Ok(()));
    assert_eq!(pallet.candidate_storage_providers(X), vec![C]);
}

#[test]
fn rotation_promotes_in_every_pool_and_only_once() {
    let mut pools = StoragePools::new();
    pools.enqueue(X, C);
    pools.enqueue(X, D);
    pools.enqueue(Y, D);
    assert_eq!(pools.check_join(X, C), Err(Error::AlreadyACandidate));
    assert_eq!(pools.check_join(Y, C), Ok(()));
    assert_eq!(pools.check_pin(Y, C), Err(Error::NotACandidate));
    assert_eq!(pools.check_pin(X, C), Ok(()));
    pools.record_pin(X, D);
    pools.record_pin(X, C);
    pools.record_pin(Y, D);
    assert_eq!(pools.check_pin(X, C), Err(Error::AlreadyPinned));
    pools.select_candidate_storage_providers();
    assert_eq!(pools.storage_providers(X), vec![C, D]);
    assert_eq!(pools.storage_providers(Y), vec![D]);
    assert_eq!(pools.candidate_storage_providers(X).len(), 0);
    assert_eq!(pools.candidate_storage_providers(Y).len(), 0);
    assert_eq!(pools.pinners(X), vec![D, C]);
    assert_eq!(pools.check_join(X, C), Err(Error::AlreadyPinned));
    pools.select_candidate_storage_providers();
    assert_eq!(pools.storage_providers(X), vec![C, D]);
    assert_eq!(pools.storage_providers(Y), vec![D]);
}

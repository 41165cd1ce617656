use iris_session::pallet::{AddResults, GenesisConfig, Pallet, Refusal};
use iris_session::rewards::{EraRewardPoints, RewardLedger};
use iris_session::types::{Config, Error, Origin};

fn limits() -> Config {
    Config { min_authorities: 2, max_dead_session: 3 }
}

fn started(validators: Vec<u64>) -> Pallet {
    let genesis = GenesisConfig { initial_validators: validators };
    assert!(genesis.is_valid());
    assert!(limits().is_usable());
    genesis.build(limits())
}

#[test]
fn iris_ledger_initial_state() {
    // Given: the state machine is initialised at block 0
    let pallet = Pallet::new(limits());
    // When: the reward ledger is queried
    let ledger = pallet.total_session_rewards(0);
    let len = ledger.len();
    // Then: it is empty
    assert_eq!(len, 0);
}

#[test]
fn empty_record_has_no_points() {
    let points = EraRewardPoints::new();
    assert_eq!(points.total(), 0);
    assert_eq!(points.individual(7), 0);
    assert_eq!(points, EraRewardPoints::default());
    let mut credited = EraRewardPoints::default();
    credited.credit(7);
    assert_ne!(points, credited);
    assert!(!GenesisConfig::default().is_valid());
}

#[test]
fn credit_raises_total_and_individual_by_one() {
    let mut points = EraRewardPoints::new();
    points.credit(7);
    points.credit(7);
    points.credit(9);
    assert_eq!(points.total(), 3);
    assert_eq!(points.individual(7), 2);
    assert_eq!(points.individual(9), 1);
    assert_eq!(points.individual(8), 0);
    let copy = points.duplicate();
    assert_eq!(copy.total(), 3);
    assert_eq!(copy.individual(7), 2);
}

#[test]
fn ledger_credit_point_appends_participant() {
    let mut ledger = RewardLedger::new();
    ledger.credit_point(5, 1, 40);
    ledger.credit_point(5, 1, 40);
    ledger.credit_point(5, 2, 41);
    assert_eq!(ledger.total_session_rewards(5), vec![40, 40, 41]);
    assert_eq!(ledger.eras_reward_points(5, 1).total(), 2);
    assert_eq!(ledger.eras_reward_points(5, 1).individual(40), 2);
    assert_eq!(ledger.eras_reward_points(5, 2).total(), 1);
    assert_eq!(ledger.eras_reward_points(5, 2).individual(41), 1);
    assert_eq!(ledger.eras_reward_points(6, 1).total(), 0);
    assert!(ledger.took_part(5, 40));
    assert!(!ledger.took_part(5, 42));
    assert!(!ledger.took_part(6, 40));
    assert_eq!(ledger.room(5, 1), u32::MAX - 2);
    assert_eq!(ledger.room(9, 9), u32::MAX);
}

#[test]
fn ledger_total_is_sum_of_individual_points() {
    let mut ledger = RewardLedger::new();
    let accounts = vec![1, 2, 3, 2, 1, 2];
    ledger.credit_points(3, 8, &accounts);
    let record = ledger.eras_reward_points(3, 8);
    assert_eq!(record.total(), 6);
    assert_eq!(record.individual(1), 2);
    assert_eq!(record.individual(2), 3);
    assert_eq!(record.individual(3), 1);
    assert_eq!(record.total(), record.individual(1) + record.individual(2) + record.individual(3));
    assert_eq!(ledger.total_session_rewards(3), accounts);
}

#[test]
fn add_results_credit_every_validator() {
    let mut pallet = started(vec![10, 20, 30]);
    pallet.start_session(4);
    assert!(pallet.room(7) >= 3);
    assert_eq!(pallet.submit_ipfs_add_results(Origin::Signed(99), 7, Ok::<(), &str>(())), Ok(()));
    let record = pallet.eras_reward_points(4, 7);
    assert_eq!(record.total(), 3);
    assert_eq!(record.individual(10), 1);
    assert_eq!(record.individual(20), 1);
    assert_eq!(record.individual(30), 1);
    assert_eq!(pallet.total_session_rewards(4), vec![10, 20, 30]);
    assert_eq!(pallet.room(7), u32::MAX - 3);
}

#[test]
fn add_results_need_a_signer() {
    let mut pallet = started(vec![10, 20]);
    pallet.start_session(4);
    let stored: Result<(), &str> = Ok(());
    assert_eq!(
        pallet.submit_ipfs_add_results(Origin::Unsigned, 7, stored),
        Err(Refusal::Machine(Error::BadOrigin))
    );
    assert_eq!(pallet.submit_ipfs_add_results(Origin::Root, 7, stored), Err(Refusal::Machine(Error::BadOrigin)));
    assert_eq!(
        pallet.submit_ipfs_add_results(Origin::Unsigned, 7, Err("no such asset")),
        Err(Refusal::Machine(Error::BadOrigin))
    );
    assert_eq!(pallet.eras_reward_points(4, 7).total(), 0);
    assert_eq!(pallet.total_session_rewards(4).len(), 0);
}

#[test]
fn add_results_pass_on_the_refusal_of_the_ledger() {
    let mut pallet = started(vec![10, 20]);
    pallet.start_session(4);
    assert_eq!(
        pallet.submit_ipfs_add_results(Origin::Signed(10), 7, Err("no such asset")),
        Err(Refusal::Ledger("no such asset"))
    );
    assert_eq!(pallet.eras_reward_points(4, 7).total(), 0);
    assert_eq!(pallet.total_session_rewards(4).len(), 0);
}

#[test]
fn add_results_request_names_what_the_ledger_gets() {
    assert_eq!(
        Pallet::add_results_request(Origin::Signed(10), 70, vec![1, 2], 7, 1_000),
        Ok(AddResults { who: 10, admin: 70, cid: vec![1, 2], id: 7, balance: 1_000 })
    );
    assert_eq!(Pallet::add_results_request(Origin::Root, 70, vec![1, 2], 7, 1_000), Err(Error::BadOrigin));
    assert_eq!(Pallet::add_results_request(Origin::Unsigned, 70, vec![1, 2], 7, 1_000), Err(Error::BadOrigin));
}

#[test]
fn credit_without_active_era_changes_nothing() {
    let mut pallet = started(vec![10, 20]);
    assert_eq!(pallet.active_era(), None);
    assert_eq!(pallet.submit_ipfs_add_results(Origin::Signed(10), 1, Ok::<(), &str>(())), Ok(()));
    assert_eq!(pallet.submit_rpc_ready(1), Ok(()));
    assert_eq!(pallet.join_storage_pool(Origin::Signed(30), 1, true), Ok(()));
    assert_eq!(pallet.submit_ipfs_pin_result(Origin::Signed(10), 1, 30), Ok(()));
    for era in 0..8 {
        assert_eq!(pallet.eras_reward_points(era, 1).total(), 0);
        assert_eq!(pallet.eras_reward_points(era, 1).individual(10), 0);
        assert_eq!(pallet.eras_reward_points(era, 1).individual(30), 0);
        assert_eq!(pallet.total_session_rewards(era).len(), 0);
    }
    assert_eq!(pallet.room(1), u32::MAX);
    assert_eq!(pallet.pinners(1), vec![30]);
}

#[test]
fn rpc_ready_credits_every_provider() {
    let mut pallet = started(vec![10, 20]);
    pallet.start_session(2);
    assert_eq!(pallet.join_storage_pool(Origin::Signed(30), 1, true), Ok(()));
    assert_eq!(pallet.join_storage_pool(Origin::Signed(31), 1, true), Ok(()));
    assert_eq!(pallet.submit_ipfs_pin_result(Origin::Signed(10), 1, 30), Ok(()));
    assert_eq!(pallet.submit_ipfs_pin_result(Origin::Signed(10), 1, 31), Ok(()));
    assert_eq!(pallet.new_session(3), Some(vec![10, 20]));
    assert_eq!(pallet.storage_providers(1), vec![30, 31]);
    assert_eq!(pallet.submit_rpc_ready(1), Ok(()));
    let record = pallet.eras_reward_points(2, 1);
    assert_eq!(record.total(), 4);
    assert_eq!(record.individual(30), 2);
    assert_eq!(record.individual(31), 2);
    assert_eq!(pallet.total_session_rewards(2), vec![30, 31, 30, 31]);
    assert_eq!(pallet.submit_rpc_ready(9), Ok(()));
    assert_eq!(pallet.eras_reward_points(2, 9).total(), 0);
}

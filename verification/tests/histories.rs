use iris_session::accounts::is_distinct;
use iris_session::pallet::{GenesisConfig, Pallet};
use iris_session::types::{Config, Error, Origin};

const ACCOUNTS: u64 = 6;
const ASSETS: u32 = 3;

struct Dice(u64);

impl Dice {
    fn roll(&mut self, sides: u64) -> u64 {
        self.0 = self.0.wrapping_mul(6364136223846793005).wrapping_add(1442695040888963407);
        (self.0 >> 33) % sides
    }
}

fn check(pallet: &Pallet, eras: u32) {
    let validators = pallet.validators();
    let approved = pallet.approved_validators();
    assert!(is_distinct(&validators));
    for validator in validators.iter() {
        assert!(approved.contains(validator));
    }
    for asset in 0..ASSETS {
        let candidates = pallet.candidate_storage_providers(asset);
        let providers = pallet.storage_providers(asset);
        let pinners = pallet.pinners(asset);
        assert!(is_distinct(&candidates));
        assert!(is_distinct(&providers));
        assert!(is_distinct(&pinners));
        for candidate in candidates.iter() {
            assert!(!providers.contains(candidate));
        }
        for pinner in pinners.iter() {
            assert!(candidates.contains(pinner) || providers.contains(pinner));
        }
        for era in 0..eras {
            let record = pallet.eras_reward_points(era, asset);
            let sum: u32 = (0..ACCOUNTS).map(|account| record.individual(account)).sum();
            assert_eq!(record.total(), sum);
        }
    }
    for era in 0..eras {
        let credits: u32 = (0..ASSETS).map(|asset| pallet.eras_reward_points(era, asset).total()).sum();
        assert_eq!(pallet.total_session_rewards(era).len(), credits as usize);
    }
}

fn run(seed: u64, steps: usize) {
    let config = Config { min_authorities: 2, max_dead_session: 1 };
    let genesis = GenesisConfig { initial_validators: vec![0, 1, 2] };
    assert!(genesis.is_valid());
    let mut pallet = genesis.build(config);
    let mut dice = Dice(seed);
    let mut era: u32 = 0;
    for _ in 0..steps {
        let account = dice.roll(ACCOUNTS);
        let asset = dice.roll(ASSETS as u64) as u32;
        match dice.roll(11) {
            0 => {
                let before = pallet.validators();
                let result = pallet.add_validator(Origin::Root, account);
                assert_eq!(result.is_err(), before.contains(&account));
                assert_eq!(result.err(), if before.contains(&account) { Some(Error::Duplicate) } else { None });
            },
            1 => {
                let before = pallet.validators();
                let left = before.iter().filter(|validator| **validator != account).count();
                match pallet.remove_validator(Origin::Root, account) {
                    Ok(()) => {
                        assert!(left >= 2);
                        assert_eq!(pallet.validators().len(), left);
                        assert!(!pallet.validators().contains(&account));
                        assert!(!pallet.approved_validators().contains(&account));
                    },
                    Err(error) => {
                        assert!(left < 2);
                        assert_eq!(error, Error::TooLowValidatorCount);
                        assert_eq!(pallet.validators(), before);
                    },
                }
            },
            2 => {
                let active = pallet.validators().contains(&account);
                let approved = pallet.approved_validators().contains(&account);
                let result = pallet.add_validator_again(Origin::Signed(account), account);
                if !active {
                    assert_eq!(result.is_ok(), approved);
                } else {
                    assert_eq!(result, Err(Error::Duplicate));
                }
            },
            3 => {
                let _ = pallet.join_storage_pool(Origin::Signed(account), asset, dice.roll(4) != 0);
            },
            4 => {
                let _ = pallet.submit_ipfs_pin_result(Origin::Signed(account), asset, account);
            },
            5 => {
                assert_eq!(pallet.submit_rpc_ready(asset), Ok(()));
            },
            6 => {
                assert_eq!(pallet.submit_ipfs_add_results(Origin::Signed(account), asset, Ok::<(), ()>(())), Ok(()));
            },
            7 => {
                assert_eq!(pallet.report_offence(&vec![(account, account)]), Ok(()));
            },
            8 => {
                era += 1;
                let before: Vec<Vec<u64>> = (0..ASSETS).map(|asset| pallet.storage_providers(asset)).collect();
                let validators = pallet.new_session(era);
                for asset in 0..ASSETS {
                    let after = pallet.storage_providers(asset);
                    let kept = &before[asset as usize];
                    assert_eq!(&after[..kept.len()], &kept[..]);
                }
                assert_eq!(validators, Some(pallet.validators()));
                assert_eq!(pallet.validators_to_remove().len(), 0);
                for asset in 0..ASSETS {
                    assert_eq!(pallet.candidate_storage_providers(asset).len(), 0);
                }
            },
            9 => {
                pallet.start_session(era);
                assert_eq!(pallet.active_era(), Some(era));
            },
            _ => {
                let before = pallet.validators();
                pallet.end_session(era);
                for validator in pallet.validators().iter() {
                    assert!(before.contains(validator));
                }
            },
        }
        check(&pallet, era + 1);
    }
}

#[test]
fn invariants_hold_along_histories() {
    for seed in 0..40 {
        run(seed, 120);
    }
}

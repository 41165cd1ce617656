//! The state of the ledger-side state machine and what each operation makes
//! of it. Everything here is mathematics: the executable machine states its
//! contracts over these definitions, and the laws are proved of them.

use vstd::prelude::*;
use crate::identity::{with_node, IdentitiesView, NodeView};
use crate::pools::{all_promoted, PoolView};
use crate::registry::RegistryView;
use crate::rewards::LedgerView;
use crate::types::{is_total, AccountId, AssetId, Config, EraIndex, Error, Event, Origin};

verus! {

/// What the state machine holds.
pub struct State {
    /// The limits that govern automatic removal of validators.
    pub config: Config,
    /// The validator registry.
    pub registry: RegistryView,
    /// The reward ledger.
    pub ledger: LedgerView,
    /// The storage-provider pool of every asset.
    pub pools: Map<AssetId, PoolView>,
    /// The published storage-network identities.
    pub identities: IdentitiesView,
    /// The era that was planned last, if any.
    pub current_era: Option<EraIndex>,
    /// The era that is being rewarded, if any.
    pub active_era: Option<EraIndex>,
    /// The events announced so far.
    pub events: Seq<Event>,
}

/// What an operation leaves behind: the state, and whether it was accepted.
pub struct Outcome {
    pub state: State,
    pub result: Result<(), Error>,
}

/// The validator ids of the reported offenders, in order.
pub open spec fn offender_ids(offenders: Seq<(AccountId, AccountId)>) -> Seq<AccountId> {
    Seq::new(offenders.len(), |i: int| offenders[i].0)
}

impl State {
    /// The state before anything happened.
    pub open spec fn initial(config: Config) -> State {
        State {
            config,
            registry: RegistryView::empty(),
            ledger: LedgerView::empty(),
            pools: Map::total(|asset_id: AssetId| PoolView::empty()),
            identities: IdentitiesView {
                nodes: Seq::empty(),
                bridge: Map::total(|account: AccountId| Seq::<u8>::empty()),
            },
            current_era: None,
            active_era: None,
            events: Seq::empty(),
        }
    }

    /// The state in which the first validators are active and approved.
    pub open spec fn genesis(config: Config, validators: Seq<AccountId>) -> State {
        State {
            registry: RegistryView { validators, approved: validators, ..RegistryView::empty() },
            ..State::initial(config)
        }
    }

    /// What holds of every state that the machine reaches: no validator is
    /// active twice, every active validator is approved, every reward total
    /// is the sum of its individual points,
    /// every account that pinned an asset is a candidate or a provider of
    /// it, no two bootstrap nodes share a public key, and every map has an
    /// entry for every key.
    pub open spec fn wf(self) -> bool {
        &&& self.config.wf()
        &&& self.registry.wf()
        &&& self.ledger.wf()
        &&& self.identities.wf()
        &&& is_total(self.pools)
        &&& forall|asset_id: AssetId| (#[trigger] self.pools[asset_id]).wf()
        &&& self.registry.approves_validators()
    }

    /// The operation was rejected: nothing changed.
    pub open spec fn rejected(self, error: Error) -> Outcome {
        Outcome { state: self, result: Err(error) }
    }

    /// The operation was accepted and left `self` behind.
    pub open spec fn accepted(self) -> Outcome {
        Outcome { state: self, result: Ok(()) }
    }

    /// The state with one more event announced.
    pub open spec fn announcing(self, event: Event) -> State {
        State { events: self.events.push(event), ..self }
    }

    /// The state after each of `accounts` earned a point for `asset_id` in
    /// the active era. Without an active era nothing is credited.
    pub open spec fn credited_all(self, asset_id: AssetId, accounts: Seq<AccountId>) -> State {
        match self.active_era {
            Some(era) => State { ledger: self.ledger.credited_all(era, asset_id, accounts), ..self },
            None => self,
        }
    }

    /// The state after `account` earned a point for `asset_id` in the active era.
    pub open spec fn credited(self, asset_id: AssetId, account: AccountId) -> State {
        self.credited_all(asset_id, seq![account])
    }

    /// Tells whether the record of `asset_id` in the active era can take `count` more points.
    pub open spec fn has_room(self, asset_id: AssetId, count: nat) -> bool {
        match self.active_era {
            Some(era) => self.ledger.has_room(era, asset_id, count),
            None => true,
        }
    }

    /// Adding a validator: for the privileged origin only. A validator that
    /// is active already is rejected as a duplicate. Otherwise it becomes
    /// active and approved; that it was approved before is no failure.
    pub open spec fn add_validator(self, origin: Origin, validator_id: AccountId) -> Outcome {
        if origin != Origin::Root {
            self.rejected(Error::BadOrigin)
        } else if self.registry.check_add(validator_id) is Err {
            self.rejected(Error::Duplicate)
        } else {
            State {
                registry: self.registry.with_validator(validator_id).with_approved(validator_id),
                ..self
            }.announcing(Event::ValidatorAdditionInitiated(validator_id)).accepted()
        }
    }

    /// Removing a validator: for the privileged origin only. It is rejected
    /// where the removal would leave fewer validators than the minimum.
    /// Otherwise the validator is neither active nor approved afterwards; for
    /// an account that was not active this leaves the validators as they are.
    pub open spec fn remove_validator(self, origin: Origin, validator_id: AccountId) -> Outcome {
        if origin != Origin::Root {
            self.rejected(Error::BadOrigin)
        } else if self.registry.check_remove(validator_id, self.config.min_authorities) is Err {
            self.rejected(Error::TooLowValidatorCount)
        } else {
            State {
                registry: self.registry.without_validator(validator_id).without_approved(validator_id),
                ..self
            }.announcing(Event::ValidatorRemovalInitiated(validator_id)).accepted()
        }
    }

    /// A validator adding itself again: the caller must be the validator, and
    /// the validator must be approved and not active.
    pub open spec fn add_validator_again(self, origin: Origin, validator_id: AccountId) -> Outcome {
        if origin != Origin::Signed(validator_id) {
            self.rejected(Error::BadOrigin)
        } else if !self.registry.approved.contains(validator_id) {
            self.rejected(Error::ValidatorNotApproved)
        } else if self.registry.check_add(validator_id) is Err {
            self.rejected(Error::Duplicate)
        } else {
            State { registry: self.registry.with_validator(validator_id), ..self }.announcing(
                Event::ValidatorAdditionInitiated(validator_id),
            ).accepted()
        }
    }

    /// Whether the caller may ask to join the pool of an asset: the signer, or why not.
    pub open spec fn check_join(self, origin: Origin, pool_id: AssetId) -> Result<AccountId, Error> {
        match origin {
            Origin::Signed(who) => match self.pools[pool_id].check_join(who) {
                Ok(_) => Ok(who),
                Err(error) => Err(error),
            },
            _ => Err(Error::BadOrigin),
        }
    }

    /// Joining the pool of an asset. `placed` says whether the asset ledger
    /// took the pin request; it is only asked where the caller may join.
    pub open spec fn join_storage_pool(self, origin: Origin, pool_id: AssetId, placed: bool) -> Outcome {
        match self.check_join(origin, pool_id) {
            Err(error) => self.rejected(error),
            Ok(who) => {
                if placed {
                    State { pools: self.pools.insert(pool_id, self.pools[pool_id].joined(who)), ..self }.announcing(
                        Event::RequestJoinStoragePoolSuccess(who, pool_id),
                    ).accepted()
                } else {
                    self.rejected(Error::CantCreateRequest)
                }
            },
        }
    }

    /// Reporting new content that the asset ledger has stored: every active
    /// validator earns a point for the asset.
    pub open spec fn submit_ipfs_add_results(self, origin: Origin, id: AssetId) -> Outcome {
        if origin is Signed {
            self.credited_all(id, self.registry.validators).accepted()
        } else {
            self.rejected(Error::BadOrigin)
        }
    }

    /// Publishing a node's identity: the addresses replace those listed under
    /// the public key, and the signer's bridge entry is overwritten.
    pub open spec fn submit_ipfs_identity(
        self,
        origin: Origin,
        public_key: Seq<u8>,
        multiaddresses: Seq<Seq<u8>>,
    ) -> Outcome {
        match origin {
            Origin::Signed(who) => State {
                identities: IdentitiesView {
                    nodes: with_node(self.identities.nodes, NodeView { public_key, addresses: multiaddresses }),
                    bridge: self.identities.bridge.insert(who, public_key),
                },
                ..self
            }.announcing(Event::PublishedIdentity(who)).accepted(),
            _ => self.rejected(Error::BadOrigin),
        }
    }

    /// Confirming a pin: the pinner must be a candidate of the asset that has
    /// not pinned yet. It joins the pinners and earns a point.
    pub open spec fn submit_ipfs_pin_result(self, origin: Origin, asset_id: AssetId, pinner: AccountId) -> Outcome {
        if !(origin is Signed) {
            self.rejected(Error::BadOrigin)
        } else {
            match self.pools[asset_id].check_pin(pinner) {
                Err(error) => self.rejected(error),
                Ok(_) => State {
                    pools: self.pools.insert(asset_id, self.pools[asset_id].pinned(pinner)),
                    ..self
                }.credited(asset_id, pinner).accepted(),
            }
        }
    }

    /// Announcing that content is ready for its reader: every provider of the asset earns a point.
    pub open spec fn submit_rpc_ready(self, asset_id: AssetId) -> Outcome {
        self.credited_all(asset_id, self.pools[asset_id].providers).accepted()
    }

    /// A session starts: its index becomes the active era.
    pub open spec fn start_session(self, start_index: EraIndex) -> State {
        State { active_era: Some(start_index), ..self }
    }

    /// A session is planned: its index becomes the current era, the
    /// validators reported offline leave, and in every pool the candidates
    /// that pinned become providers.
    pub open spec fn new_session(self, new_index: EraIndex) -> State {
        State {
            current_era: Some(new_index),
            registry: self.registry.without_offline(),
            pools: all_promoted(self.pools),
            ..self
        }
    }

    /// A session ends: the validators are swept by who took part in the era of that index.
    pub open spec fn end_session(self, end_index: EraIndex) -> State {
        State { registry: self.registry.without_dead(self.ledger.participation[end_index], self.config), ..self }
    }

    /// An offence was reported: every offender is noted as offline.
    pub open spec fn report_offence(self, offenders: Seq<(AccountId, AccountId)>) -> State {
        State {
            registry: RegistryView { offline: self.registry.offline + offender_ids(offenders), ..self.registry },
            ..self
        }
    }
}

} // verus!

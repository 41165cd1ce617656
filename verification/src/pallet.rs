//! The state machine itself: the one owner of the ledger-side state, through
//! which every operation and every session hook is applied, one at a time.

use vstd::prelude::*;
use crate::accounts::is_distinct;
use crate::identity::{addresses_of, Identities};
use crate::model::{offender_ids, Outcome, State};
use crate::pools::{follows_rotation, lemma_joined, lemma_pinned, lemma_promoted, StoragePools};
use crate::registry::{
    lemma_approval_follows, lemma_swept, lemma_without_offline, lemma_without_validator, ValidatorRegistry,
};
use crate::rewards::{EraRewardPoints, RewardLedger};
use crate::types::{
    byte_strings, AccountId, AssetId, Balance, Cid, Config, EraIndex, Error, Event, Multiaddr, Origin, PublicKey,
    RewardPoint,
};

verus! {

/// What the caller is to hand to the asset ledger before it joins a pool.
#[derive(Clone, Copy, Debug, PartialEq, Eq, Structural)]
pub struct PinRequest {
    /// The account that asks to join.
    pub who: AccountId,
    /// The owner of the pool's asset.
    pub owner: AccountId,
    /// The asset.
    pub asset_id: AssetId,
}

/// What the caller is to hand to the asset ledger before the publication of
/// new content is rewarded.
#[derive(Debug, PartialEq, Eq)]
pub struct AddResults {
    /// The account that reports the publication.
    pub who: AccountId,
    /// The admin of the asset.
    pub admin: AccountId,
    /// The content address under which the content was published.
    pub cid: Cid,
    /// The asset.
    pub id: AssetId,
    /// The balance of the asset.
    pub balance: Balance,
}

/// Why the report of new content was not taken.
#[derive(Debug, PartialEq, Eq)]
pub enum Refusal<E> {
    /// The state machine rejected the report.
    Machine(Error),
    /// The asset ledger did not store the content, for the reason it gave.
    Ledger(E),
}

/// The validators that are active when the chain starts.
pub struct GenesisConfig {
    /// The first validators.
    pub initial_validators: Vec<AccountId>,
}

/// The ledger-side state machine.
pub struct Pallet {
    config: Config,
    registry: ValidatorRegistry,
    ledger: RewardLedger,
    pools: StoragePools,
    identities: Identities,
    current_era: Option<EraIndex>,
    active_era: Option<EraIndex>,
    events: Vec<Event>,
}

impl View for Pallet {
    type V = State;

    closed spec fn view(&self) -> State {
        State {
            config: self.config,
            registry: self.registry@,
            ledger: self.ledger@,
            pools: self.pools@,
            identities: self.identities@,
            current_era: self.current_era,
            active_era: self.active_era,
            events: self.events@,
        }
    }
}

impl Default for GenesisConfig {
    /// The start of a chain for which no validator was named yet.
    fn default() -> (genesis: GenesisConfig)
        ensures
            genesis.initial_validators@.len() == 0,
    {
        GenesisConfig { initial_validators: Vec::new() }
    }
}

impl GenesisConfig {
    /// At least two validators, none of them twice.
    pub open spec fn wf(&self) -> bool {
        self.initial_validators@.len() > 1 && self.initial_validators@.no_duplicates()
    }

    /// Tells whether the chain can start with these validators, that is whether `wf` holds.
    pub fn is_valid(&self) -> (valid: bool)
        ensures
            valid == self.wf(),
    {
        self.initial_validators.len() > 1 && is_distinct(&self.initial_validators)
    }

    /// The state machine at the start of the chain: the first validators are
    /// active and approved, and nothing else has happened.
    pub fn build(&self, config: Config) -> (pallet: Pallet)
        requires
            self.wf(),
            config.wf(),
        ensures
            pallet.wf(),
            pallet@ == State::genesis(config, self.initial_validators@),
    {
        let mut pallet = Pallet::new(config);
        pallet.registry.initialize_validators(&self.initial_validators);
        pallet
    }
}

impl Pallet {
    /// What the parts need beyond what `State::wf` says.
    pub closed spec fn parts_wf(&self) -> bool {
        self.pools.wf()
    }

    /// The state is one that the machine can have reached.
    pub open spec fn wf(&self) -> bool {
        self@.wf() && self.parts_wf()
    }

    /// The state machine before anything happened, without validators.
    pub fn new(config: Config) -> (pallet: Pallet)
        requires
            config.wf(),
        ensures
            pallet.wf(),
            pallet@ == State::initial(config),
    {
        Pallet {
            config,
            registry: ValidatorRegistry::new(),
            ledger: RewardLedger::new(),
            pools: StoragePools::new(),
            identities: Identities::new(),
            current_era: None,
            active_era: None,
            events: Vec::new(),
        }
    }

    /// The limits that govern automatic removal of validators.
    pub fn config(&self) -> (config: Config)
        ensures
            config == self@.config,
    {
        self.config
    }

    /// The active validators.
    pub fn validators(&self) -> (validators: Vec<AccountId>)
        ensures
            validators@ == self@.registry.validators,
    {
        self.registry.validators()
    }

    /// The validators that may add themselves again.
    pub fn approved_validators(&self) -> (validators: Vec<AccountId>)
        ensures
            validators@ == self@.registry.approved,
    {
        self.registry.approved_validators()
    }

    /// The validators reported offline since the last session was planned.
    pub fn validators_to_remove(&self) -> (validators: Vec<AccountId>)
        ensures
            validators@ == self@.registry.offline,
    {
        self.registry.validators_to_remove()
    }

    /// The number of unproductive eras counted against an account.
    pub fn unproductive_sessions(&self, account: AccountId) -> (count: u32)
        ensures
            count == self@.registry.unproductive[account],
    {
        self.registry.unproductive_sessions(account)
    }

    /// The era that was planned last, if any.
    pub fn current_era(&self) -> (era: Option<EraIndex>)
        ensures
            era == self@.current_era,
    {
        self.current_era
    }

    /// The era that is being rewarded, if any.
    pub fn active_era(&self) -> (era: Option<EraIndex>)
        ensures
            era == self@.active_era,
    {
        self.active_era
    }

    /// The reward points of an era and asset.
    pub fn eras_reward_points(&self, era: EraIndex, asset_id: AssetId) -> (points: EraRewardPoints)
        ensures
            points@ == self@.ledger.points[(era, asset_id)],
    {
        self.ledger.eras_reward_points(era, asset_id)
    }

    /// The accounts credited during an era, one entry for each credit.
    pub fn total_session_rewards(&self, era: EraIndex) -> (accounts: Vec<AccountId>)
        ensures
            accounts@ == self@.ledger.participation[era],
    {
        self.ledger.total_session_rewards(era)
    }

    /// The accounts that asked to provide storage for an asset.
    pub fn candidate_storage_providers(&self, asset_id: AssetId) -> (accounts: Vec<AccountId>)
        ensures
            accounts@ == self@.pools[asset_id].candidates,
    {
        self.pools.candidate_storage_providers(asset_id)
    }

    /// The accounts that provide storage for an asset.
    pub fn storage_providers(&self, asset_id: AssetId) -> (accounts: Vec<AccountId>)
        ensures
            accounts@ == self@.pools[asset_id].providers,
    {
        self.pools.storage_providers(asset_id)
    }

    /// The accounts that confirmed to have pinned the content of an asset.
    pub fn pinners(&self, asset_id: AssetId) -> (accounts: Vec<AccountId>)
        ensures
            accounts@ == self@.pools[asset_id].pinners,
    {
        self.pools.pinners(asset_id)
    }

    /// The addresses listed for the public key of a bootstrap node; none for an unknown key.
    pub fn bootstrap_nodes(&self, public_key: &PublicKey) -> (addresses: Vec<Multiaddr>)
        requires
            self.wf(),
        ensures
            byte_strings(addresses@) == addresses_of(self@.identities.nodes, public_key@),
    {
        self.identities.bootstrap_nodes(public_key)
    }

    /// The public key that an account published; empty if it published none.
    pub fn substrate_ipfs_bridge(&self, account: AccountId) -> (public_key: PublicKey)
        ensures
            public_key@ == self@.identities.bridge[account],
    {
        self.identities.substrate_ipfs_bridge(account)
    }

    /// The published identities, as the offchain workers read them.
    pub fn identities(&self) -> (identities: &Identities)
        ensures
            identities@ == self@.identities,
            self.wf() ==> identities.wf(),
    {
        &self.identities
    }

    /// The events announced so far.
    pub fn events(&self) -> (events: &Vec<Event>)
        ensures
            events@ == self@.events,
    {
        &self.events
    }

    /// The number of points that the record of an asset in the active era can
    /// still take; without an active era, as many as there are.
    pub fn room(&self, asset_id: AssetId) -> (room: RewardPoint)
        ensures
            forall|count: nat| count <= room ==> self@.has_room(asset_id, count),
            forall|count: nat| count <= RewardPoint::MAX && self@.has_room(asset_id, count) ==> count <= room,
    {
        match self.active_era {
            Some(era) => self.ledger.room(era, asset_id),
            None => RewardPoint::MAX,
        }
    }

    /// Gives each of `accounts` a point for `asset_id` in the active era, if there is one.
    fn credit(&mut self, asset_id: AssetId, accounts: &Vec<AccountId>)
        requires
            old(self).wf(),
            old(self)@.has_room(asset_id, accounts@.len()),
        ensures
            final(self).wf(),
            final(self)@ == old(self)@.credited_all(asset_id, accounts@),
    {
        match self.active_era {
            Some(era) => {
                self.ledger.credit_points(era, asset_id, accounts);
            },
            None => {},
        }
    }

    /// Adds a validator. Only the privileged origin may do so.
    ///
    /// The validator becomes active and approved, and its count of
    /// unproductive eras starts anew. One that is active already is rejected
    /// as a duplicate, and nothing changes.
    pub fn add_validator(&mut self, origin: Origin, validator_id: AccountId) -> (result: Result<(), Error>)
        requires
            old(self).wf(),
        ensures
            final(self).wf(),
            (Outcome { state: final(self)@, result }) == old(self)@.add_validator(origin, validator_id),
    {
        match origin {
            Origin::Root => {},
            _ => {
                return Err(Error::BadOrigin);
            },
        }
        proof {
            lemma_approval_follows(self@.registry, validator_id);
        }
        match self.registry.do_add_validator(validator_id) {
            Err(error) => {
                return Err(error);
            },
            Ok(_) => {},
        }
        let _ = self.registry.approve_validator(validator_id);
        self.events.push(Event::ValidatorAdditionInitiated(validator_id));
        Ok(())
    }

    /// Removes a validator. Only the privileged origin may do so.
    ///
    /// Where the removal would leave fewer validators than the minimum it is
    /// rejected and nothing changes. After an accepted removal at least the
    /// minimum number of validators is active. An account that is not active
    /// takes nobody out of the validators, so its removal is accepted
    /// whenever the validators are not fewer than the minimum already.
    pub fn remove_validator(&mut self, origin: Origin, validator_id: AccountId) -> (result: Result<(), Error>)
        requires
            old(self).wf(),
        ensures
            final(self).wf(),
            (Outcome { state: final(self)@, result }) == old(self)@.remove_validator(origin, validator_id),
            result is Ok ==> final(self)@.registry.validators.len() >= old(self)@.config.min_authorities,
            result is Err ==> final(self)@ == old(self)@,
            origin == Origin::Root && old(self)@.registry.validators.contains(validator_id) ==> (result is Ok
                <==> old(self)@.registry.validators.len() - 1 >= old(self)@.config.min_authorities),
            origin == Origin::Root && !old(self)@.registry.validators.contains(validator_id) ==> (result is Ok
                <==> old(self)@.registry.validators.len() >= old(self)@.config.min_authorities),
            result is Ok && !old(self)@.registry.validators.contains(validator_id) ==> final(self)@.registry.validators
                == old(self)@.registry.validators,
    {
        proof {
            lemma_without_validator(self@.registry, validator_id);
        }
        match origin {
            Origin::Root => {},
            _ => {
                return Err(Error::BadOrigin);
            },
        }
        proof {
            lemma_approval_follows(self@.registry, validator_id);
        }
        match self.registry.do_remove_validator(validator_id, self.config.min_authorities) {
            Err(error) => {
                return Err(error);
            },
            Ok(_) => {},
        }
        self.registry.unapprove_validator(validator_id);
        self.events.push(Event::ValidatorRemovalInitiated(validator_id));
        Ok(())
    }

    /// Lets an approved validator add itself again. The caller must be the validator.
    pub fn add_validator_again(&mut self, origin: Origin, validator_id: AccountId) -> (result: Result<(), Error>)
        requires
            old(self).wf(),
        ensures
            final(self).wf(),
            (Outcome { state: final(self)@, result }) == old(self)@.add_validator_again(origin, validator_id),
    {
        match origin {
            Origin::Signed(who) => {
                if who != validator_id {
                    return Err(Error::BadOrigin);
                }
            },
            _ => {
                return Err(Error::BadOrigin);
            },
        }
        if !self.registry.is_approved(validator_id) {
            return Err(Error::ValidatorNotApproved);
        }
        proof {
            lemma_approval_follows(self@.registry, validator_id);
        }
        match self.registry.do_add_validator(validator_id) {
            Err(error) => {
                return Err(error);
            },
            Ok(_) => {},
        }
        self.events.push(Event::ValidatorAdditionInitiated(validator_id));
        Ok(())
    }

    /// Tells whether the caller may ask to join the pool of an asset, and if
    /// so, what is to be handed to the asset ledger on its behalf.
    pub fn pin_request(
        &self,
        origin: Origin,
        pool_owner: AccountId,
        pool_id: AssetId,
    ) -> (request: Result<PinRequest, Error>)
        ensures
            match self@.check_join(origin, pool_id) {
                Ok(who) => request == Ok::<PinRequest, Error>(PinRequest { who, owner: pool_owner, asset_id: pool_id }),
                Err(error) => request == Err::<PinRequest, Error>(error),
            },
    {
        match origin {
            Origin::Signed(who) => match self.pools.check_join(pool_id, who) {
                Ok(_) => Ok(PinRequest { who, owner: pool_owner, asset_id: pool_id }),
                Err(error) => Err(error),
            },
            _ => Err(Error::BadOrigin),
        }
    }

    /// Enters the caller among the candidates of an asset's pool. `placed`
    /// says whether the asset ledger took the pin request that `pin_request`
    /// described.
    pub fn join_storage_pool(&mut self, origin: Origin, pool_id: AssetId, placed: bool) -> (result: Result<(), Error>)
        requires
            old(self).wf(),
        ensures
            final(self).wf(),
            (Outcome { state: final(self)@, result }) == old(self)@.join_storage_pool(origin, pool_id, placed),
    {
        let who: AccountId = match origin {
            Origin::Signed(who) => who,
            _ => {
                return Err(Error::BadOrigin);
            },
        };
        match self.pools.check_join(pool_id, who) {
            Err(error) => {
                return Err(error);
            },
            Ok(_) => {},
        }
        if !placed {
            return Err(Error::CantCreateRequest);
        }
        proof {
            lemma_joined(self@.pools[pool_id], who);
        }
        self.pools.enqueue(pool_id, who);
        self.events.push(Event::RequestJoinStoragePoolSuccess(who, pool_id));
        Ok(())
    }

    /// Tells whether the caller may report new content, and if so, what is
    /// to be handed to the asset ledger on its behalf.
    pub fn add_results_request(
        origin: Origin,
        admin: AccountId,
        cid: Cid,
        id: AssetId,
        balance: Balance,
    ) -> (request: Result<AddResults, Error>)
        ensures
            match origin {
                Origin::Signed(who) => request == Ok::<AddResults, Error>(AddResults { who, admin, cid, id, balance }),
                _ => request == Err::<AddResults, Error>(Error::BadOrigin),
            },
    {
        match origin {
            Origin::Signed(who) => Ok(AddResults { who, admin, cid, id, balance }),
            _ => Err(Error::BadOrigin),
        }
    }

    /// Rewards the publication of new content. `stored` is what the asset
    /// ledger answered when it was handed what `add_results_request`
    /// described.
    ///
    /// Where the ledger stored the content, every active validator earns a
    /// point for the asset in the active era; without an active era nobody
    /// does. Where it did not, its reason is passed on and nothing changes.
    /// Room for the points is asked for only where they are given.
    pub fn submit_ipfs_add_results<E>(
        &mut self,
        origin: Origin,
        id: AssetId,
        stored: Result<(), E>,
    ) -> (result: Result<(), Refusal<E>>)
        requires
            old(self).wf(),
            origin is Signed && stored is Ok ==> old(self)@.has_room(id, old(self)@.registry.validators.len()),
        ensures
            final(self).wf(),
            !(origin is Signed) ==> result == Err::<(), Refusal<E>>(Refusal::Machine(Error::BadOrigin)),
            origin is Signed ==> match stored {
                Ok(_) => result is Ok,
                Err(reason) => result == Err::<(), Refusal<E>>(Refusal::Ledger(reason)),
            },
            result is Ok ==> final(self)@ == old(self)@.submit_ipfs_add_results(origin, id).state,
            result is Err ==> final(self)@ == old(self)@,
    {
        match origin {
            Origin::Signed(_) => {},
            _ => {
                return Err(Refusal::Machine(Error::BadOrigin));
            },
        }
        match stored {
            Err(reason) => {
                return Err(Refusal::Ledger(reason));
            },
            Ok(_) => {},
        }
        let validators = self.registry.validators();
        self.credit(id, &validators);
        Ok(())
    }

    /// Records the storage-network identity that the caller published.
    pub fn submit_ipfs_identity(
        &mut self,
        origin: Origin,
        public_key: PublicKey,
        multiaddresses: Vec<Multiaddr>,
    ) -> (result: Result<(), Error>)
        requires
            old(self).wf(),
        ensures
            final(self).wf(),
            (Outcome { state: final(self)@, result }) == old(self)@.submit_ipfs_identity(
                origin,
                public_key@,
                byte_strings(multiaddresses@),
            ),
    {
        let who: AccountId = match origin {
            Origin::Signed(who) => who,
            _ => {
                return Err(Error::BadOrigin);
            },
        };
        self.identities.publish(who, public_key, multiaddresses);
        self.events.push(Event::PublishedIdentity(who));
        Ok(())
    }

    /// Tells whether a pin of `pinner` for an asset may be confirmed, and if not, why.
    pub fn check_pin(&self, asset_id: AssetId, pinner: AccountId) -> (result: Result<(), Error>)
        ensures
            result == self@.pools[asset_id].check_pin(pinner),
    {
        self.pools.check_pin(asset_id, pinner)
    }

    /// Confirms that `pinner` pinned the content of an asset. The pinner
    /// joins the pinners of the asset and earns a point in the active era.
    /// Room for the point is asked for only where the pin is confirmed.
    pub fn submit_ipfs_pin_result(
        &mut self,
        origin: Origin,
        asset_id: AssetId,
        pinner: AccountId,
    ) -> (result: Result<(), Error>)
        requires
            old(self).wf(),
            origin is Signed && old(self)@.pools[asset_id].check_pin(pinner) is Ok ==> old(self)@.has_room(asset_id, 1),
        ensures
            final(self).wf(),
            (Outcome { state: final(self)@, result }) == old(self)@.submit_ipfs_pin_result(origin, asset_id, pinner),
    {
        match origin {
            Origin::Signed(_) => {},
            _ => {
                return Err(Error::BadOrigin);
            },
        }
        match self.pools.check_pin(asset_id, pinner) {
            Err(error) => {
                return Err(error);
            },
            Ok(_) => {},
        }
        proof {
            lemma_pinned(self@.pools[asset_id], pinner);
        }
        self.pools.record_pin(asset_id, pinner);
        let mut one: Vec<AccountId> = Vec::new();
        one.push(pinner);
        assert(one@ == seq![pinner]);
        self.credit(asset_id, &one);
        Ok(())
    }

    /// Rewards the providers of an asset whose content was made ready for a
    /// reader: each earns a point in the active era. Without an active era
    /// nothing changes.
    pub fn submit_rpc_ready(&mut self, asset_id: AssetId) -> (result: Result<(), Error>)
        requires
            old(self).wf(),
            old(self)@.has_room(asset_id, old(self)@.pools[asset_id].providers.len()),
        ensures
            final(self).wf(),
            (Outcome { state: final(self)@, result }) == old(self)@.submit_rpc_ready(asset_id),
    {
        let providers = self.pools.storage_providers(asset_id);
        self.credit(asset_id, &providers);
        Ok(())
    }

    /// The bytes that the local store holds for a reader: what was found
    /// under the key, or nothing.
    pub fn retrieve_bytes(found: Option<Vec<u8>>) -> (bytes: Vec<u8>)
        ensures
            bytes@ == match found {
                Some(data) => data@,
                None => Seq::<u8>::empty(),
            },
    {
        match found {
            Some(data) => data,
            None => Vec::new(),
        }
    }

    /// A session starts.
    pub fn start_session(&mut self, start_index: EraIndex)
        requires
            old(self).wf(),
        ensures
            final(self).wf(),
            final(self)@ == old(self)@.start_session(start_index),
    {
        self.active_era = Some(start_index);
    }

    /// A session is planned. Returns the validators of the new session.
    ///
    /// In every pool the providers of before stay, in their order, and the
    /// candidates that pinned follow them, each listed once; every candidate
    /// queue is empty afterwards.
    pub fn new_session(&mut self, new_index: EraIndex) -> (validators: Option<Vec<AccountId>>)
        requires
            old(self).wf(),
        ensures
            final(self).wf(),
            final(self)@ == old(self)@.new_session(new_index),
            validators matches Some(list) && list@ == final(self)@.registry.validators,
            forall|asset_id: AssetId|
                follows_rotation(old(self)@.pools[asset_id], #[trigger] final(self)@.pools[asset_id]),
    {
        self.current_era = Some(new_index);
        proof {
            lemma_without_offline(self@.registry);
        }
        self.registry.remove_offline_validators();
        let ghost before = self@.pools;
        self.pools.select_candidate_storage_providers();
        proof {
            assert forall|asset_id: AssetId| (#[trigger] self@.pools[asset_id]).wf() by {
                assert(old(self)@.pools[asset_id].wf());
                lemma_promoted(before[asset_id]);
                assert(self@.pools[asset_id] == before[asset_id].promoted());
            }
            assert forall|asset_id: AssetId|
                follows_rotation(old(self)@.pools[asset_id], #[trigger] self@.pools[asset_id]) by {
                assert(old(self)@.pools[asset_id].wf());
                lemma_promoted(before[asset_id]);
            }
        }
        Some(self.registry.validators())
    }

    /// A session ends.
    pub fn end_session(&mut self, end_index: EraIndex)
        requires
            old(self).wf(),
        ensures
            final(self).wf(),
            final(self)@ == old(self)@.end_session(end_index),
    {
        let participants = self.ledger.total_session_rewards(end_index);
        proof {
            lemma_swept(self@.registry, participants@, self@.registry.validators, self.config);
        }
        self.registry.mark_dead_validators(&participants, &self.config);
    }

    /// Notes every reported offender as offline, to be removed when the next
    /// session is planned. The report is always taken.
    pub fn report_offence(&mut self, offenders: &Vec<(AccountId, AccountId)>) -> (result: Result<(), Error>)
        requires
            old(self).wf(),
        ensures
            final(self).wf(),
            result is Ok,
            final(self)@ == old(self)@.report_offence(offenders@),
    {
        let mut i: usize = 0;
        while i < offenders.len()
            invariant
                i <= offenders.len(),
                self.wf(),
                self@ == old(self)@.report_offence(offenders@.take(i as int)),
            decreases offenders.len() - i,
        {
            let offender: AccountId = offenders[i].0;
            self.registry.mark_for_removal(offender);
            assert(offender_ids(offenders@.take(i + 1)) =~= offender_ids(offenders@.take(i as int)).push(offender));
            assert(old(self)@.registry.offline + offender_ids(offenders@.take(i as int)).push(offender) =~= (
                old(self)@.registry.offline + offender_ids(offenders@.take(i as int))).push(offender));
            i += 1;
        }
        assert(offenders@.take(offenders.len() as int) == offenders@);
        Ok(())
    }

    /// Tells whether an offence was reported before. Reports are not kept, so none ever was.
    pub fn is_known_offence(&self, offenders: &Vec<(AccountId, AccountId)>, time_slot: u64) -> (known: bool)
        ensures
            !known,
    {
        false
    }

    /// The average length of a session in blocks: nothing is known of it.
    pub fn average_session_length() -> (blocks: u64)
        ensures
            blocks == 0,
    {
        0
    }

    /// How far the current session has come, and what it cost to find out: nothing is known, at no cost.
    pub fn estimate_current_session_progress(now: u64) -> (estimate: (Option<u32>, u64))
        ensures
            estimate == (None::<u32>, 0u64),
    {
        (None, 0)
    }

    /// The block at which the next session begins, and what it cost to find out: nothing is known, at no cost.
    pub fn estimate_next_session_rotation(now: u64) -> (estimate: (Option<u64>, u64))
        ensures
            estimate == (None::<u64>, 0u64),
    {
        (None, 0)
    }
}

} // verus!

//! What holds of the state machine over whole histories, proved of the model
//! that the executable machine is held to.

use vstd::prelude::*;
use crate::accounts::occurs_once;
use crate::identity::{addresses_of, lemma_with_node, NodeView};
use crate::model::{Outcome, State};
use crate::pools::{lemma_empty_pool, lemma_joined, lemma_pinned, lemma_promoted};
use crate::registry::{
    lemma_approval_follows, lemma_counts_never_fall, lemma_swept, lemma_swept_one, lemma_with_validator,
    lemma_without_offline, lemma_without_validator, RegistryView,
};
use crate::rewards::{lemma_ledger_credited_all, sum_points};
use crate::types::{AccountId, AssetId, Config, EraIndex, Error, Origin, RewardPoint};

verus! {

/// Something that happens to the state machine.
pub enum Operation {
    /// A validator is added: origin, validator.
    AddValidator(Origin, AccountId),
    /// A validator is removed: origin, validator.
    RemoveValidator(Origin, AccountId),
    /// A validator adds itself again: origin, validator.
    AddValidatorAgain(Origin, AccountId),
    /// An account asks to join a pool: origin, asset, whether the asset ledger took the pin request.
    JoinStoragePool(Origin, AssetId, bool),
    /// New content that the asset ledger has stored is reported: origin, asset.
    SubmitIpfsAddResults(Origin, AssetId),
    /// An identity is published: origin, public key, addresses.
    SubmitIpfsIdentity(Origin, Seq<u8>, Seq<Seq<u8>>),
    /// A pin is confirmed: origin, asset, pinner.
    SubmitIpfsPinResult(Origin, AssetId, AccountId),
    /// Content is announced as ready: asset.
    SubmitRpcReady(AssetId),
    /// A session starts.
    StartSession(EraIndex),
    /// A session is planned.
    NewSession(EraIndex),
    /// A session ends.
    EndSession(EraIndex),
    /// An offence is reported: the offenders.
    ReportOffence(Seq<(AccountId, AccountId)>),
}

impl Operation {
    /// Tells whether the operation can take validators out of the active set.
    pub open spec fn may_remove_validators(self) -> bool {
        self is RemoveValidator || self is NewSession || self is EndSession
    }
}

impl State {
    /// What an operation makes of the state.
    pub open spec fn outcome(self, operation: Operation) -> Outcome {
        match operation {
            Operation::AddValidator(origin, id) => self.add_validator(origin, id),
            Operation::RemoveValidator(origin, id) => self.remove_validator(origin, id),
            Operation::AddValidatorAgain(origin, id) => self.add_validator_again(origin, id),
            Operation::JoinStoragePool(origin, pool_id, placed) => self.join_storage_pool(origin, pool_id, placed),
            Operation::SubmitIpfsAddResults(origin, id) => self.submit_ipfs_add_results(origin, id),
            Operation::SubmitIpfsIdentity(origin, public_key, addresses) => self.submit_ipfs_identity(
                origin,
                public_key,
                addresses,
            ),
            Operation::SubmitIpfsPinResult(origin, asset_id, pinner) => self.submit_ipfs_pin_result(
                origin,
                asset_id,
                pinner,
            ),
            Operation::SubmitRpcReady(asset_id) => self.submit_rpc_ready(asset_id),
            Operation::StartSession(index) => self.start_session(index).accepted(),
            Operation::NewSession(index) => self.new_session(index).accepted(),
            Operation::EndSession(index) => self.end_session(index).accepted(),
            Operation::ReportOffence(offenders) => self.report_offence(offenders).accepted(),
        }
    }

    /// Tells whether the reward records have room for what the operation
    /// credits. An operation that is rejected credits nothing and needs no room.
    pub open spec fn admits(self, operation: Operation) -> bool {
        match operation {
            Operation::SubmitIpfsAddResults(origin, id) => {
                origin is Signed ==> self.has_room(id, self.registry.validators.len())
            },
            Operation::SubmitIpfsPinResult(origin, asset_id, pinner) => {
                let confirmed = origin is Signed && self.pools[asset_id].check_pin(pinner) is Ok;
                confirmed ==> self.has_room(asset_id, 1)
            },
            Operation::SubmitRpcReady(asset_id) => self.has_room(asset_id, self.pools[asset_id].providers.len()),
            _ => true,
        }
    }

    /// The state after a history of operations, the oldest first.
    pub open spec fn after(self, history: Seq<Operation>) -> State
        decreases history.len(),
    {
        if history.len() == 0 {
            self
        } else {
            self.after(history.drop_last()).outcome(history.last()).state
        }
    }

    /// Tells whether the reward records had room at every operation of a history.
    pub open spec fn admits_all(self, history: Seq<Operation>) -> bool
        decreases history.len(),
    {
        history.len() > 0 ==> self.admits_all(history.drop_last()) && self.after(history.drop_last()).admits(
            history.last(),
        )
    }
}

/// Every operation leaves a state that the machine can have reached, and
/// leaves the limits as they are. A rejected operation changes nothing.
pub proof fn law_operation_keeps_validity(state: State, operation: Operation)
    requires
        state.wf(),
        state.admits(operation),
    ensures
        state.outcome(operation).state.wf(),
        state.outcome(operation).state.config == state.config,
        state.outcome(operation).result is Err ==> state.outcome(operation).state == state,
{
    match operation {
        Operation::AddValidator(origin, id) => {
            lemma_approval_follows(state.registry, id);
            if !state.registry.validators.contains(id) {
                lemma_with_validator(state.registry, id);
            }
        },
        Operation::RemoveValidator(origin, id) => {
            lemma_approval_follows(state.registry, id);
            lemma_without_validator(state.registry, id);
        },
        Operation::AddValidatorAgain(origin, id) => {
            lemma_approval_follows(state.registry, id);
            if !state.registry.validators.contains(id) {
                lemma_with_validator(state.registry, id);
            }
        },
        Operation::JoinStoragePool(origin, pool_id, placed) => {
            if state.check_join(origin, pool_id) is Ok {
                lemma_joined(state.pools[pool_id], origin->Signed_0);
            }
        },
        Operation::SubmitIpfsAddResults(origin, id) => {
            if state.active_era is Some && origin is Signed {
                lemma_ledger_credited_all(state.ledger, state.active_era->0, id, state.registry.validators);
            }
        },
        Operation::SubmitIpfsIdentity(origin, public_key, addresses) => {
            lemma_with_node(state.identities.nodes, NodeView { public_key, addresses });
        },
        Operation::SubmitIpfsPinResult(origin, asset_id, pinner) => {
            if state.pools[asset_id].check_pin(pinner) is Ok {
                lemma_pinned(state.pools[asset_id], pinner);
            }
            if state.active_era is Some && origin is Signed && state.pools[asset_id].check_pin(pinner) is Ok {
                lemma_ledger_credited_all(state.ledger, state.active_era->0, asset_id, seq![pinner]);
            }
        },
        Operation::SubmitRpcReady(asset_id) => {
            if state.active_era is Some {
                lemma_ledger_credited_all(
                    state.ledger,
                    state.active_era->0,
                    asset_id,
                    state.pools[asset_id].providers,
                );
            }
        },
        Operation::StartSession(index) => {},
        Operation::NewSession(index) => {
            lemma_without_offline(state.registry);
            assert forall|asset_id: AssetId| (#[trigger] state.new_session(index).pools[asset_id]).wf() by {
                lemma_promoted(state.pools[asset_id]);
            }
        },
        Operation::EndSession(index) => {
            lemma_swept(state.registry, state.ledger.participation[index], state.registry.validators, state.config);
        },
        Operation::ReportOffence(offenders) => {},
    }
}

/// The state at the start of the chain is one that the machine can have
/// reached, whenever at least two validators start it and none of them twice.
pub proof fn law_genesis_is_valid(config: Config, validators: Seq<AccountId>)
    requires
        config.wf(),
        validators.len() > 1,
        validators.no_duplicates(),
    ensures
        State::genesis(config, validators).wf(),
        State::initial(config).wf(),
{
    assert(sum_points(Map::<AccountId, RewardPoint>::empty()) == 0);
    lemma_empty_pool();
}

/// The count of unproductive eras that stands against an account is taken
/// back to nothing when the account is added as a validator, and by nothing
/// else: no other operation lowers it, a productive era included.
pub proof fn law_count_is_only_reset_by_addition(state: State, operation: Operation, account: AccountId)
    requires
        state.wf(),
        state.admits(operation),
    ensures
        ({
            let after = state.outcome(operation);
            let adds = (operation matches Operation::AddValidator(_, id) && id == account) || (
            operation matches Operation::AddValidatorAgain(_, id) && id == account);
            &&& adds && after.result is Ok ==> after.state.registry.unproductive[account] == 0
            &&& !adds || after.result is Err ==> after.state.registry.unproductive[account]
                >= state.registry.unproductive[account]
        }),
{
    match operation {
        Operation::EndSession(index) => {
            lemma_counts_never_fall(
                state.registry,
                state.ledger.participation[index],
                state.registry.validators,
                state.config,
            );
        },
        _ => {},
    }
}

/// Every state that a history leads to is one in which no validator is
/// active twice, every reward total is the sum of its individual points,
/// every account that pinned an asset is a candidate or a provider of it,
/// and no two bootstrap nodes share a public key.
pub proof fn law_history_keeps_validity(state: State, history: Seq<Operation>)
    requires
        state.wf(),
        state.admits_all(history),
    ensures
        state.after(history).wf(),
        state.after(history).config == state.config,
    decreases history.len(),
{
    if history.len() > 0 {
        law_history_keeps_validity(state, history.drop_last());
        law_operation_keeps_validity(state.after(history.drop_last()), history.last());
    }
}

/// After any history, an accepted removal leaves at least the minimum number
/// of validators, and a removal that would leave fewer is rejected and
/// changes nothing. What counts is the number that this removal leaves: the
/// removal of an account that is not active is accepted whenever the
/// validators are not fewer than the minimum already.
pub proof fn law_removal_keeps_minimum(state: State, history: Seq<Operation>, origin: Origin, validator_id: AccountId)
    requires
        state.wf(),
        state.admits_all(history),
    ensures
        ({
            let before = state.after(history);
            let removal = before.remove_validator(origin, validator_id);
            &&& removal.result is Ok ==> removal.state.registry.validators.len() >= state.config.min_authorities
            &&& removal.result is Ok ==> !removal.state.registry.validators.contains(validator_id)
            &&& removal.result is Err ==> removal.state == before
            &&& origin == Origin::Root ==> (removal.result is Err <==> before.registry.count_after_removal(validator_id)
                < state.config.min_authorities)
            &&& removal.result is Err && origin == Origin::Root ==> removal.result == Err::<(), Error>(
                Error::TooLowValidatorCount,
            )
            &&& origin == Origin::Root && !before.registry.validators.contains(validator_id)
                && before.registry.validators.len() >= state.config.min_authorities ==> removal.result is Ok
                && removal.state.registry.validators == before.registry.validators
        }),
{
    law_history_keeps_validity(state, history);
    lemma_without_validator(state.after(history).registry, validator_id);
}

/// Operations that remove no validator keep every active validator active.
pub proof fn law_validators_stay(state: State, history: Seq<Operation>, validator_id: AccountId)
    requires
        state.wf(),
        state.admits_all(history),
        state.registry.validators.contains(validator_id),
        forall|i: int| 0 <= i < history.len() ==> !(#[trigger] history[i]).may_remove_validators(),
    ensures
        state.after(history).registry.validators.contains(validator_id),
    decreases history.len(),
{
    if history.len() > 0 {
        let earlier = history.drop_last();
        assert forall|i: int| 0 <= i < earlier.len() implies !(#[trigger] earlier[i]).may_remove_validators() by {
            assert(earlier[i] == history[i]);
        }
        law_validators_stay(state, earlier, validator_id);
        law_history_keeps_validity(state, earlier);
        let before = state.after(earlier);
        let last = history.last();
        assert(last == history[history.len() - 1]);
        assert(!last.may_remove_validators());
        match last {
            Operation::AddValidator(origin, id) => {
                if !before.registry.validators.contains(id) {
                    lemma_with_validator(before.registry, id);
                }
            },
            Operation::AddValidatorAgain(origin, id) => {
                if !before.registry.validators.contains(id) {
                    lemma_with_validator(before.registry, id);
                }
            },
            _ => {},
        }
    }
}

/// A validator cannot be added twice without an intervening removal: once
/// it was added, and as long as nothing is done that can remove validators,
/// adding it is rejected as a duplicate, by the privileged origin and by
/// the validator itself.
pub proof fn law_no_second_addition(state: State, validator_id: AccountId, history: Seq<Operation>)
    requires
        state.wf(),
        state.add_validator(Origin::Root, validator_id).result is Ok,
        state.add_validator(Origin::Root, validator_id).state.admits_all(history),
        forall|i: int| 0 <= i < history.len() ==> !(#[trigger] history[i]).may_remove_validators(),
    ensures
        ({
            let later = state.add_validator(Origin::Root, validator_id).state.after(history);
            &&& later.add_validator(Origin::Root, validator_id) == later.rejected(Error::Duplicate)
            &&& later.add_validator_again(Origin::Signed(validator_id), validator_id) == later.rejected(
                Error::Duplicate,
            )
        }),
{
    let added = state.add_validator(Origin::Root, validator_id).state;
    law_operation_keeps_validity(state, Operation::AddValidator(Origin::Root, validator_id));
    lemma_with_validator(state.registry, validator_id);
    law_validators_stay(added, history, validator_id);
    law_history_keeps_validity(added, history);
}

/// A validator that is not active adds itself again exactly when it is the
/// caller and is approved; a caller other than the validator is a bad
/// origin, and a validator that is not approved is told so.
pub proof fn law_rejoin(state: State, origin: Origin, validator_id: AccountId)
    requires
        state.wf(),
        !state.registry.validators.contains(validator_id),
    ensures
        ({
            let rejoin = state.add_validator_again(origin, validator_id);
            let is_caller = origin == Origin::Signed(validator_id);
            let is_approved = state.registry.approved.contains(validator_id);
            &&& rejoin.result is Ok <==> is_caller && is_approved
            &&& !is_caller ==> rejoin == state.rejected(Error::BadOrigin)
            &&& is_caller && !is_approved ==> rejoin == state.rejected(Error::ValidatorNotApproved)
            &&& rejoin.result is Ok ==> rejoin.state.registry.validators == state.registry.validators.push(
                validator_id,
            ) && rejoin.state.registry.unproductive[validator_id] == 0
        }),
{
}

/// In every state that a history leads to, the total of every reward record
/// is the sum of the points of its accounts.
pub proof fn law_totals_match(state: State, history: Seq<Operation>, era: EraIndex, asset_id: AssetId)
    requires
        state.wf(),
        state.admits_all(history),
    ensures
        ({
            let record = state.after(history).ledger.points[(era, asset_id)];
            record.total == sum_points(record.individual)
        }),
{
    law_history_keeps_validity(state, history);
    assert(state.after(history).ledger.points[(era, asset_id)].wf());
}

/// Publishing an identity again changes nothing but the list of events: the
/// addresses of the node and the bridge entry of the account are overwritten
/// with what they hold already.
pub proof fn law_publishing_is_idempotent(state: State, origin: Origin, public_key: Seq<u8>, addresses: Seq<Seq<u8>>)
    requires
        state.wf(),
    ensures
        ({
            let once = state.submit_ipfs_identity(origin, public_key, addresses).state;
            let twice = once.submit_ipfs_identity(origin, public_key, addresses).state;
            &&& twice.identities == once.identities
            &&& once.submit_ipfs_identity(origin, public_key, addresses).result == state.submit_ipfs_identity(
                origin,
                public_key,
                addresses,
            ).result
            &&& origin matches Origin::Signed(who) ==> once.identities.bridge[who] == public_key
                && addresses_of(once.identities.nodes, public_key) == addresses
        }),
{
    lemma_with_node(state.identities.nodes, NodeView { public_key, addresses });
    if origin is Signed {
        let once = state.submit_ipfs_identity(origin, public_key, addresses).state;
        let twice = once.submit_ipfs_identity(origin, public_key, addresses).state;
        assert(twice.identities.bridge =~= once.identities.bridge);
    }
}

/// An account that asks to join a pool and confirms its pin is a provider
/// of the asset after the next session rotation, and no longer a candidate:
/// it is listed once among the providers, after those of before, who all
/// stay in their order.
pub proof fn law_pinned_candidate_is_promoted(
    state: State,
    candidate: AccountId,
    asset_id: AssetId,
    confirmer: Origin,
    new_index: EraIndex,
)
    requires
        state.wf(),
        state.join_storage_pool(Origin::Signed(candidate), asset_id, true).result is Ok,
        state.join_storage_pool(Origin::Signed(candidate), asset_id, true).state.submit_ipfs_pin_result(
            confirmer,
            asset_id,
            candidate,
        ).result is Ok,
    ensures
        ({
            let joined = state.join_storage_pool(Origin::Signed(candidate), asset_id, true).state;
            let pinned = joined.submit_ipfs_pin_result(confirmer, asset_id, candidate).state;
            let rotated = pinned.new_session(new_index);
            let before = state.pools[asset_id].providers;
            let after = rotated.pools[asset_id].providers;
            &&& pinned.pools[asset_id].candidates.contains(candidate)
            &&& pinned.pools[asset_id].providers == before
            &&& !before.contains(candidate)
            &&& occurs_once(after, candidate)
            &&& after.take(before.len() as int) == before
            &&& rotated.pools[asset_id].candidates.len() == 0
        }),
{
    let joined = state.join_storage_pool(Origin::Signed(candidate), asset_id, true).state;
    let pinned = joined.submit_ipfs_pin_result(confirmer, asset_id, candidate).state;
    assert(state.pools[asset_id].wf());
    lemma_joined(state.pools[asset_id], candidate);
    lemma_pinned(joined.pools[asset_id], candidate);
    lemma_promoted(pinned.pools[asset_id]);
}

/// An account that asks to join a pool and does not confirm a pin is
/// dropped by the next session rotation: it is neither a candidate nor a
/// provider afterwards.
pub proof fn law_unpinned_candidate_is_dropped(
    state: State,
    candidate: AccountId,
    asset_id: AssetId,
    new_index: EraIndex,
)
    requires
        state.wf(),
        state.join_storage_pool(Origin::Signed(candidate), asset_id, true).result is Ok,
    ensures
        ({
            let joined = state.join_storage_pool(Origin::Signed(candidate), asset_id, true).state;
            let rotated = joined.new_session(new_index);
            &&& joined.pools[asset_id].candidates.contains(candidate)
            &&& !rotated.pools[asset_id].candidates.contains(candidate)
            &&& !rotated.pools[asset_id].providers.contains(candidate)
        }),
{
    let joined = state.join_storage_pool(Origin::Signed(candidate), asset_id, true).state;
    assert(state.pools[asset_id].wf());
    assert(!state.pools[asset_id].pinners.contains(candidate));
    lemma_joined(state.pools[asset_id], candidate);
    lemma_promoted(joined.pools[asset_id]);
}

/// What the end of a session does to one validator.
///
/// A validator that took part in the era stays as it is. One that did not,
/// and whose count of unproductive eras does not exceed the limit, stays
/// with its count raised by one. One whose count exceeds the limit is
/// removed, unless the minimum number of validators stood in the way.
pub proof fn law_dead_validator_is_removed(state: State, end_index: EraIndex, validator_id: AccountId)
    requires
        state.wf(),
        state.registry.validators.contains(validator_id),
    ensures
        ({
            let ended = state.end_session(end_index);
            let absent = !state.ledger.participation[end_index].contains(validator_id);
            let count = state.registry.unproductive[validator_id];
            &&& absent && count > state.config.max_dead_session ==> !ended.registry.validators.contains(validator_id)
                || ended.registry.validators.len() <= state.config.min_authorities
            &&& absent && count > state.config.max_dead_session ==> ended.registry.unproductive[validator_id] == count
            &&& absent && count <= state.config.max_dead_session ==> ended.registry.validators.contains(validator_id)
                && ended.registry.unproductive[validator_id] == count + 1
            &&& !absent ==> ended.registry.validators.contains(validator_id) && ended.registry.unproductive[validator_id]
                == count
        }),
{
    let participants = state.ledger.participation[end_index];
    let snapshot = state.registry.validators;
    let k = choose|k: int| 0 <= k < snapshot.len() && snapshot[k] == validator_id;
    lemma_sweep_of_one(state.registry, participants, snapshot, snapshot.len() as int, k, state.config);
    assert(snapshot.take(snapshot.len() as int) == snapshot);
}

impl State {
    /// The state after the sessions of `eras` ended one after the other.
    pub open spec fn after_sessions(self, eras: Seq<EraIndex>) -> State
        decreases eras.len(),
    {
        if eras.len() == 0 {
            self
        } else {
            self.after_sessions(eras.drop_last()).end_session(eras.last())
        }
    }
}

/// The count that stands against a validator after it was found absent
/// `times` times in a row, if it is still active.
pub open spec fn count_after_absences(count: u32, times: nat, config: Config) -> int {
    if count > config.max_dead_session {
        count as int
    } else if count + times <= config.max_dead_session + 1 {
        count + times
    } else {
        config.max_dead_session + 1
    }
}

/// A validator that takes part in none of a run of eras has one unproductive
/// era counted against it at the end of each, until its count has passed
/// the limit; at the end of the next era it is removed, unless the minimum
/// number of validators stands in the way. Nothing but a new addition takes
/// the count back.
pub proof fn law_absent_validator_is_removed_in_time(state: State, validator_id: AccountId, eras: Seq<EraIndex>)
    requires
        state.wf(),
        state.registry.validators.contains(validator_id),
        forall|i: int| 0 <= i < eras.len() ==> !state.ledger.participation[#[trigger] eras[i]].contains(validator_id),
    ensures
        ({
            let ended = state.after_sessions(eras);
            let count = state.registry.unproductive[validator_id];
            &&& ended.wf()
            &&& ended.ledger == state.ledger
            &&& ended.config == state.config
            &&& ended.registry.validators.len() <= state.registry.validators.len()
            &&& ended.registry.validators.contains(validator_id) ==> ended.registry.unproductive[validator_id]
                == count_after_absences(count, eras.len(), state.config)
            &&& eras.len() > 0 && count + eras.len() > state.config.max_dead_session + 1
                ==> !ended.registry.validators.contains(validator_id) || ended.registry.validators.len()
                <= state.config.min_authorities
        }),
    decreases eras.len(),
{
    if eras.len() > 0 {
        let earlier = eras.drop_last();
        let last = eras.last();
        assert(last == eras[eras.len() - 1]);
        assert forall|i: int| 0 <= i < earlier.len() implies !state.ledger.participation[#[trigger] earlier[i]].contains(
            validator_id,
        ) by {
            assert(earlier[i] == eras[i]);
        }
        law_absent_validator_is_removed_in_time(state, validator_id, earlier);
        let middle = state.after_sessions(earlier);
        let ended = middle.end_session(last);
        lemma_swept(middle.registry, middle.ledger.participation[last], middle.registry.validators, middle.config);
        if middle.registry.validators.contains(validator_id) {
            law_dead_validator_is_removed(middle, last, validator_id);
        } else {
            assert(!ended.registry.validators.contains(validator_id));
        }
    }
}

/// The sweep of the first `upto` validators of a snapshot, seen from the
/// validator at place `k`.
proof fn lemma_sweep_of_one(
    registry: RegistryView,
    participants: Seq<AccountId>,
    snapshot: Seq<AccountId>,
    upto: int,
    k: int,
    config: Config,
)
    requires
        registry.wf(),
        config.wf(),
        snapshot.no_duplicates(),
        0 <= k < snapshot.len(),
        0 <= upto <= snapshot.len(),
        registry.validators.contains(snapshot[k]),
    ensures
        ({
            let swept = registry.swept(participants, snapshot.take(upto), config);
            let account = snapshot[k];
            let absent = !participants.contains(account);
            let count = registry.unproductive[account];
            &&& swept.wf()
            &&& swept.validators.len() <= registry.validators.len()
            &&& upto <= k ==> swept.validators.contains(account) && swept.unproductive[account] == count
            &&& upto > k && absent && count > config.max_dead_session ==> !swept.validators.contains(account)
                || swept.validators.len() <= config.min_authorities
            &&& upto > k && absent && count > config.max_dead_session ==> swept.unproductive[account] == count
            &&& upto > k && absent && count <= config.max_dead_session ==> swept.validators.contains(account)
                && swept.unproductive[account] == count + 1
            &&& upto > k && !absent ==> swept.validators.contains(account) && swept.unproductive[account] == count
        }),
    decreases upto,
{
    let account = snapshot[k];
    if upto == 0 {
        assert(snapshot.take(0) =~= Seq::<AccountId>::empty());
    } else {
        let earlier = snapshot.take(upto - 1);
        let looked_at = snapshot[upto - 1];
        assert(snapshot.take(upto).drop_last() == earlier);
        assert(snapshot.take(upto).last() == looked_at);
        lemma_sweep_of_one(registry, participants, snapshot, upto - 1, k, config);
        let middle = registry.swept(participants, earlier, config);
        lemma_swept_one(middle, participants, looked_at, config);
        lemma_without_validator(middle, looked_at);
        if upto - 1 != k {
            assert(looked_at != account);
        }
    }
}

} // verus!

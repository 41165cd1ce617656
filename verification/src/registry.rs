//! The validator registry: the active and the approved validators, those
//! reported offline, and the count of unproductive eras of every validator.

use std::collections::BTreeMap;
use vstd::prelude::*;
use crate::accounts::{
    absent_from, clone_accounts, contains, is_not, lemma_filter_members, lemma_without_absent, lemma_without_len,
    remove_account, select_by_membership, without, without_all,
};
use crate::types::{is_total, AccountId, Config, Error};

verus! {

/// What the validator registry holds.
pub struct RegistryView {
    /// The active validators, in the order in which they were added.
    pub validators: Seq<AccountId>,
    /// The validators that may add themselves again.
    pub approved: Seq<AccountId>,
    /// The validators reported offline since the last session began.
    pub offline: Seq<AccountId>,
    /// The number of unproductive eras counted against every account.
    pub unproductive: Map<AccountId, u32>,
}

impl RegistryView {
    /// The registry before any validator was entered.
    pub open spec fn empty() -> RegistryView {
        RegistryView {
            validators: Seq::empty(),
            approved: Seq::empty(),
            offline: Seq::empty(),
            unproductive: Map::total(|account: AccountId| 0u32),
        }
    }

    /// No validator is active twice, and a count stands against every account.
    pub open spec fn wf(self) -> bool {
        &&& self.validators.no_duplicates()
        &&& is_total(self.unproductive)
    }

    /// Every active validator is approved.
    pub open spec fn approves_validators(self) -> bool {
        forall|account: AccountId| #[trigger] self.validators.contains(account) ==> self.approved.contains(account)
    }

    /// Whether a validator may be added, and if not, why.
    pub open spec fn check_add(self, validator_id: AccountId) -> Result<(), Error> {
        if self.validators.contains(validator_id) {
            Err(Error::Duplicate)
        } else {
            Ok(())
        }
    }

    /// The registry after `validator_id` became active: it comes last, and
    /// its count of unproductive eras starts anew.
    pub open spec fn with_validator(self, validator_id: AccountId) -> RegistryView {
        RegistryView {
            validators: self.validators.push(validator_id),
            unproductive: self.unproductive.insert(validator_id, 0),
            ..self
        }
    }

    /// Whether a validator may be approved, and if not, why.
    pub open spec fn check_approve(self, validator_id: AccountId) -> Result<(), Error> {
        if self.approved.contains(validator_id) {
            Err(Error::Duplicate)
        } else {
            Ok(())
        }
    }

    /// The registry after `validator_id` was approved; unchanged if it was approved already.
    pub open spec fn with_approved(self, validator_id: AccountId) -> RegistryView {
        if self.approved.contains(validator_id) {
            self
        } else {
            RegistryView { approved: self.approved.push(validator_id), ..self }
        }
    }

    /// The number of validators that are left once `validator_id` is removed:
    /// one fewer if it is active, as many as before if it is not.
    pub open spec fn count_after_removal(self, validator_id: AccountId) -> nat {
        without(self.validators, validator_id).len()
    }

    /// Whether `validator_id` may be removed, and if not, why: the removal
    /// must leave at least `min_authorities` validators.
    pub open spec fn check_remove(self, validator_id: AccountId, min_authorities: u32) -> Result<(), Error> {
        if self.count_after_removal(validator_id) >= min_authorities {
            Ok(())
        } else {
            Err(Error::TooLowValidatorCount)
        }
    }

    /// The registry after `validator_id` left the active validators.
    pub open spec fn without_validator(self, validator_id: AccountId) -> RegistryView {
        RegistryView { validators: without(self.validators, validator_id), ..self }
    }

    /// The registry after `validator_id` lost its approval.
    pub open spec fn without_approved(self, validator_id: AccountId) -> RegistryView {
        RegistryView { approved: without(self.approved, validator_id), ..self }
    }

    /// The registry after `validator_id` was reported offline.
    pub open spec fn with_offline(self, validator_id: AccountId) -> RegistryView {
        RegistryView { offline: self.offline.push(validator_id), ..self }
    }

    /// The registry after the validators reported offline were removed. The
    /// minimum number of validators is not looked at here.
    pub open spec fn without_offline(self) -> RegistryView {
        RegistryView {
            validators: without_all(self.validators, self.offline),
            offline: Seq::empty(),
            ..self
        }
    }

    /// The registry after one validator was looked at in the sweep of an era
    /// in which `participants` took part.
    ///
    /// A validator that took part is left alone. One that did not has another
    /// unproductive era counted against it while its count does not exceed the
    /// limit; beyond the limit it is removed, unless that would leave fewer
    /// validators than the minimum.
    pub open spec fn swept_one(self, participants: Seq<AccountId>, account: AccountId, config: Config) -> RegistryView {
        if participants.contains(account) {
            self
        } else if self.unproductive[account] <= config.max_dead_session {
            RegistryView {
                unproductive: self.unproductive.insert(account, (self.unproductive[account] + 1) as u32),
                ..self
            }
        } else if self.check_remove(account, config.min_authorities) is Ok {
            self.without_validator(account)
        } else {
            self
        }
    }

    /// The registry after the accounts of `snapshot` were looked at in turn.
    pub open spec fn swept(self, participants: Seq<AccountId>, snapshot: Seq<AccountId>, config: Config) -> RegistryView
        decreases snapshot.len(),
    {
        if snapshot.len() == 0 {
            self
        } else {
            self.swept(participants, snapshot.drop_last(), config).swept_one(participants, snapshot.last(), config)
        }
    }

    /// The registry after the sweep of an era: every validator that was
    /// active when the sweep began is looked at, in order.
    pub open spec fn without_dead(self, participants: Seq<AccountId>, config: Config) -> RegistryView {
        self.swept(participants, self.validators, config)
    }
}

/// A validator that is not active can become active: the validators stay distinct.
pub proof fn lemma_with_validator(registry: RegistryView, validator_id: AccountId)
    requires
        registry.wf(),
        !registry.validators.contains(validator_id),
    ensures
        registry.with_validator(validator_id).wf(),
        registry.with_validator(validator_id).validators.contains(validator_id),
        forall|other: AccountId| #[trigger]
            registry.validators.contains(other) ==> registry.with_validator(validator_id).validators.contains(other),
{
    let after = registry.with_validator(validator_id).validators;
    assert(after[after.len() - 1] == validator_id);
    assert forall|i: int, j: int| 0 <= i < after.len() && 0 <= j < after.len() && i != j implies after[i]
        != after[j] by {
        if i < registry.validators.len() && j < registry.validators.len() {
            assert(registry.validators[i] != registry.validators[j]);
        } else if i < registry.validators.len() {
            assert(registry.validators.contains(registry.validators[i]));
        } else {
            assert(registry.validators.contains(registry.validators[j]));
        }
    }
    assert forall|other: AccountId| #[trigger] registry.validators.contains(other) implies after.contains(other) by {
        let i = choose|i: int| 0 <= i < registry.validators.len() && registry.validators[i] == other;
        assert(after[i] == other);
    }
}

/// Adding and removing a validator together with its approval keeps every
/// active validator approved, and so does a validator that is approved and
/// adds itself again.
pub proof fn lemma_approval_follows(registry: RegistryView, validator_id: AccountId)
    requires
        registry.wf(),
        registry.approves_validators(),
    ensures
        registry.with_validator(validator_id).with_approved(validator_id).approves_validators(),
        registry.without_validator(validator_id).without_approved(validator_id).approves_validators(),
        registry.approved.contains(validator_id) ==> registry.with_validator(validator_id).approves_validators(),
{
    let added = registry.with_validator(validator_id);
    let both = added.with_approved(validator_id);
    assert forall|account: AccountId| #[trigger] added.validators.contains(account) implies both.approved.contains(
        account,
    ) && (registry.approved.contains(validator_id) ==> added.approved.contains(account)) by {
        let i = choose|i: int| 0 <= i < added.validators.len() && added.validators[i] == account;
        if i < registry.validators.len() {
            assert(registry.validators[i] == account);
            assert(registry.validators.contains(account));
        }
        if registry.approved.contains(account) {
            let j = choose|j: int| 0 <= j < registry.approved.len() && registry.approved[j] == account;
            assert(registry.approved.push(validator_id)[j] == account);
        } else {
            assert(account == validator_id);
            assert(registry.approved.push(validator_id)[registry.approved.len() as int] == account);
        }
    }
    lemma_filter_members(registry.validators, is_not(validator_id));
    lemma_filter_members(registry.approved, is_not(validator_id));
}

/// Removing the validators reported offline keeps the others, and keeps them distinct.
pub proof fn lemma_without_offline(registry: RegistryView)
    requires
        registry.wf(),
    ensures
        registry.without_offline().wf(),
        forall|other: AccountId| #[trigger]
            registry.without_offline().validators.contains(other) <==> registry.validators.contains(other)
                && !registry.offline.contains(other),
{
    lemma_filter_members(registry.validators, absent_from(registry.offline));
}

/// Removing a validator keeps the others distinct and leaves the number
/// that the check counted: one fewer if the validator was active, as many
/// as before if it was not.
pub proof fn lemma_without_validator(registry: RegistryView, validator_id: AccountId)
    requires
        registry.wf(),
    ensures
        registry.without_validator(validator_id).wf(),
        !registry.without_validator(validator_id).validators.contains(validator_id),
        registry.without_validator(validator_id).validators.len() == registry.count_after_removal(validator_id),
        registry.count_after_removal(validator_id) == if registry.validators.contains(validator_id) {
            registry.validators.len() - 1
        } else {
            registry.validators.len() as int
        },
        !registry.validators.contains(validator_id) ==> registry.without_validator(validator_id) == registry,
        registry.without_validator(validator_id).validators.len() <= registry.validators.len(),
        forall|other: AccountId|
            other != validator_id ==> (#[trigger] registry.without_validator(validator_id).validators.contains(other)
                <==> registry.validators.contains(other)),
{
    lemma_filter_members(registry.validators, is_not(validator_id));
    lemma_without_len(registry.validators, validator_id);
    if !registry.validators.contains(validator_id) {
        lemma_without_absent(registry.validators, validator_id);
    }
}

/// A step of the sweep keeps the validators distinct, adds none, and changes
/// no count but that of the account it looks at.
pub proof fn lemma_swept_one(registry: RegistryView, participants: Seq<AccountId>, account: AccountId, config: Config)
    requires
        registry.wf(),
    ensures
        registry.swept_one(participants, account, config).wf(),
        registry.swept_one(participants, account, config).validators.len() <= registry.validators.len(),
        registry.swept_one(participants, account, config).approved == registry.approved,
        registry.swept_one(participants, account, config).offline == registry.offline,
        forall|other: AccountId| #[trigger]
            registry.swept_one(participants, account, config).validators.contains(other)
                ==> registry.validators.contains(other),
        forall|other: AccountId|
            other != account ==> (#[trigger] registry.swept_one(participants, account, config).validators.contains(
                other,
            ) <==> registry.validators.contains(other)),
        forall|other: AccountId|
            other != account ==> #[trigger] registry.swept_one(participants, account, config).unproductive[other]
                == registry.unproductive[other],
{
    lemma_without_validator(registry, account);
    lemma_filter_members(registry.validators, is_not(account));
}

/// The sweep keeps the validators distinct and adds none.
pub proof fn lemma_swept(registry: RegistryView, participants: Seq<AccountId>, snapshot: Seq<AccountId>, config: Config)
    requires
        registry.wf(),
    ensures
        registry.swept(participants, snapshot, config).wf(),
        registry.swept(participants, snapshot, config).validators.len() <= registry.validators.len(),
        registry.swept(participants, snapshot, config).approved == registry.approved,
        registry.swept(participants, snapshot, config).offline == registry.offline,
        forall|other: AccountId| #[trigger]
            registry.swept(participants, snapshot, config).validators.contains(other) ==> registry.validators.contains(
                other,
            ),
        forall|other: AccountId|
            !snapshot.contains(other) ==> (#[trigger] registry.swept(participants, snapshot, config).validators.contains(
                other,
            ) <==> registry.validators.contains(other)),
        forall|other: AccountId|
            !snapshot.contains(other) ==> #[trigger] registry.swept(participants, snapshot, config).unproductive[other]
                == registry.unproductive[other],
    decreases snapshot.len(),
{
    if snapshot.len() > 0 {
        let init = snapshot.drop_last();
        let last = snapshot.last();
        lemma_swept(registry, participants, init, config);
        let middle = registry.swept(participants, init, config);
        lemma_swept_one(middle, participants, last, config);
        let after = middle.swept_one(participants, last, config);
        assert(after == registry.swept(participants, snapshot, config));
        assert forall|other: AccountId| !snapshot.contains(other) implies (#[trigger] after.validators.contains(other)
            <==> registry.validators.contains(other)) && #[trigger] after.unproductive[other]
            == registry.unproductive[other] by {
            assert(snapshot[snapshot.len() - 1] == last);
            assert(other != last);
            if init.contains(other) {
                let j = choose|j: int| 0 <= j < init.len() && init[j] == other;
                assert(snapshot[j] == other);
            }
            assert(middle.unproductive[other] == registry.unproductive[other]);
            assert(after.unproductive[other] == middle.unproductive[other]);
        }
    }
}

/// The sweep never lowers a count.
pub proof fn lemma_counts_never_fall(
    registry: RegistryView,
    participants: Seq<AccountId>,
    snapshot: Seq<AccountId>,
    config: Config,
)
    requires
        config.wf(),
    ensures
        forall|account: AccountId| #[trigger]
            registry.swept(participants, snapshot, config).unproductive[account] >= registry.unproductive[account],
    decreases snapshot.len(),
{
    if snapshot.len() > 0 {
        lemma_counts_never_fall(registry, participants, snapshot.drop_last(), config);
        let middle = registry.swept(participants, snapshot.drop_last(), config);
        let after = middle.swept_one(participants, snapshot.last(), config);
        assert forall|account: AccountId| #[trigger] after.unproductive[account] >= registry.unproductive[account] by {
            assert(middle.unproductive[account] >= registry.unproductive[account]);
            if account != snapshot.last() {
                assert(after.unproductive[account] == middle.unproductive[account]);
            }
        }
    }
}

/// Membership of the active and approved validator sets.
pub struct ValidatorRegistry {
    validators: Vec<AccountId>,
    approved: Vec<AccountId>,
    offline: Vec<AccountId>,
    unproductive: BTreeMap<AccountId, u32>,
}

impl View for ValidatorRegistry {
    type V = RegistryView;

    closed spec fn view(&self) -> RegistryView {
        RegistryView {
            validators: self.validators@,
            approved: self.approved@,
            offline: self.offline@,
            unproductive: Map::total(
                |account: AccountId|
                    if self.unproductive@.contains_key(account) {
                        self.unproductive@[account]
                    } else {
                        0u32
                    },
            ),
        }
    }
}

impl ValidatorRegistry {
    /// No validator is active twice, and a count stands against every account.
    pub open spec fn wf(&self) -> bool {
        self@.wf()
    }

    /// The registry before any validator was entered.
    pub fn new() -> (registry: ValidatorRegistry)
        ensures
            registry@ == RegistryView::empty(),
            registry.wf(),
    {
        let registry = ValidatorRegistry {
            validators: Vec::new(),
            approved: Vec::new(),
            offline: Vec::new(),
            unproductive: BTreeMap::new(),
        };
        assert(registry@.unproductive =~= RegistryView::empty().unproductive);
        registry
    }

    /// Enters the first validators, all of them active and approved.
    pub fn initialize_validators(&mut self, validators: &Vec<AccountId>)
        requires
            old(self)@.validators.len() == 0,
            validators@.len() > 1,
            validators@.no_duplicates(),
        ensures
            final(self).wf(),
            final(self)@ == (RegistryView { validators: validators@, approved: validators@, ..old(self)@ }),
    {
        self.validators = clone_accounts(validators);
        self.approved = clone_accounts(validators);
    }

    /// The active validators.
    pub fn validators(&self) -> (validators: Vec<AccountId>)
        ensures
            validators@ == self@.validators,
    {
        clone_accounts(&self.validators)
    }

    /// The number of active validators.
    pub fn validator_count(&self) -> (count: usize)
        ensures
            count == self@.validators.len(),
    {
        self.validators.len()
    }

    /// The validators that may add themselves again.
    pub fn approved_validators(&self) -> (validators: Vec<AccountId>)
        ensures
            validators@ == self@.approved,
    {
        clone_accounts(&self.approved)
    }

    /// The validators reported offline since the last session began.
    pub fn validators_to_remove(&self) -> (validators: Vec<AccountId>)
        ensures
            validators@ == self@.offline,
    {
        clone_accounts(&self.offline)
    }

    /// The number of unproductive eras counted against an account.
    pub fn unproductive_sessions(&self, account: AccountId) -> (count: u32)
        ensures
            count == self@.unproductive[account],
    {
        match self.unproductive.get(&account) {
            Some(count) => *count,
            None => 0,
        }
    }

    /// Tells whether an account is an active validator.
    pub fn is_validator(&self, account: AccountId) -> (found: bool)
        ensures
            found == self@.validators.contains(account),
    {
        contains(&self.validators, account)
    }

    /// Tells whether an account is approved.
    pub fn is_approved(&self, account: AccountId) -> (found: bool)
        ensures
            found == self@.approved.contains(account),
    {
        contains(&self.approved, account)
    }

    /// Makes `validator_id` an active validator, unless it is one already.
    pub fn do_add_validator(&mut self, validator_id: AccountId) -> (result: Result<(), Error>)
        requires
            old(self).wf(),
        ensures
            final(self).wf(),
            result == old(self)@.check_add(validator_id),
            result is Ok ==> final(self)@ == old(self)@.with_validator(validator_id),
            result is Err ==> final(self)@ == old(self)@,
    {
        if contains(&self.validators, validator_id) {
            return Err(Error::Duplicate);
        }
        proof {
            lemma_with_validator(self@, validator_id);
        }
        self.validators.push(validator_id);
        self.unproductive.insert(validator_id, 0);
        assert(self@.unproductive =~= old(self)@.unproductive.insert(validator_id, 0));
        Ok(())
    }

    /// Takes `validator_id` out of the active validators, unless fewer than
    /// `min_authorities` would be left. An account that is not active leaves
    /// the validators as they are.
    pub fn do_remove_validator(&mut self, validator_id: AccountId, min_authorities: u32) -> (result: Result<(), Error>)
        requires
            old(self).wf(),
        ensures
            final(self).wf(),
            result == old(self)@.check_remove(validator_id, min_authorities),
            result is Ok ==> final(self)@ == old(self)@.without_validator(validator_id),
            result is Ok ==> final(self)@.validators.len() >= min_authorities,
            result is Err ==> final(self)@ == old(self)@,
    {
        let kept = remove_account(&self.validators, validator_id);
        if (kept.len() as u128) < min_authorities as u128 {
            return Err(Error::TooLowValidatorCount);
        }
        proof {
            lemma_without_validator(self@, validator_id);
        }
        self.validators = kept;
        Ok(())
    }

    /// Tells whether at least `min_authorities` validators are left once
    /// `validator_id` is removed.
    pub fn may_remove(&self, validator_id: AccountId, min_authorities: u32) -> (allowed: bool)
        ensures
            allowed == (self@.check_remove(validator_id, min_authorities) is Ok),
    {
        let kept = remove_account(&self.validators, validator_id);
        kept.len() as u128 >= min_authorities as u128
    }

    /// Approves `validator_id`, unless it is approved already.
    pub fn approve_validator(&mut self, validator_id: AccountId) -> (result: Result<(), Error>)
        requires
            old(self).wf(),
        ensures
            final(self).wf(),
            result == old(self)@.check_approve(validator_id),
            final(self)@ == old(self)@.with_approved(validator_id),
    {
        if contains(&self.approved, validator_id) {
            return Err(Error::Duplicate);
        }
        self.approved.push(validator_id);
        Ok(())
    }

    /// Takes the approval of `validator_id` away.
    pub fn unapprove_validator(&mut self, validator_id: AccountId)
        requires
            old(self).wf(),
        ensures
            final(self).wf(),
            final(self)@ == old(self)@.without_approved(validator_id),
    {
        self.approved = remove_account(&self.approved, validator_id);
    }

    /// Notes that `validator_id` was reported offline.
    pub fn mark_for_removal(&mut self, validator_id: AccountId)
        requires
            old(self).wf(),
        ensures
            final(self).wf(),
            final(self)@ == old(self)@.with_offline(validator_id),
    {
        self.offline.push(validator_id);
    }

    /// Removes the validators reported offline and forgets the reports.
    pub fn remove_offline_validators(&mut self)
        requires
            old(self).wf(),
        ensures
            final(self).wf(),
            final(self)@ == old(self)@.without_offline(),
    {
        proof {
            lemma_without_offline(self@);
        }
        self.validators = select_by_membership(&self.validators, &self.offline, false);
        self.offline = Vec::new();
    }

    /// Sweeps the validators after an era in which `participants` took part.
    pub fn mark_dead_validators(&mut self, participants: &Vec<AccountId>, config: &Config)
        requires
            old(self).wf(),
            config.wf(),
        ensures
            final(self).wf(),
            final(self)@ == old(self)@.without_dead(participants@, *config),
    {
        let snapshot = clone_accounts(&self.validators);
        let mut i: usize = 0;
        while i < snapshot.len()
            invariant
                i <= snapshot.len(),
                config.wf(),
                self.wf(),
                self@ == old(self)@.swept(participants@, snapshot@.take(i as int), *config),
            decreases snapshot.len() - i,
        {
            let account: AccountId = snapshot[i];
            proof {
                assert(snapshot@.take(i + 1).drop_last() == snapshot@.take(i as int));
                lemma_swept_one(self@, participants@, account, *config);
            }
            let ghost before = self@;
            if !contains(participants, account) {
                let count: u32 = self.unproductive_sessions(account);
                if count <= config.max_dead_session {
                    self.unproductive.insert(account, count + 1);
                    assert(self@.unproductive =~= before.unproductive.insert(account, (count + 1) as u32));
                } else {
                    let kept = remove_account(&self.validators, account);
                    if kept.len() as u128 >= config.min_authorities as u128 {
                        self.validators = kept;
                    }
                }
            }
            assert(self@ == before.swept_one(participants@, account, *config));
            i += 1;
        }
        assert(snapshot@.take(snapshot.len() as int) == snapshot@);
    }
}

} // verus!

//! The reward ledger: the points that accounts earned for an asset during an
//! era, and who took part in each era.

use std::collections::BTreeMap;
use vstd::prelude::*;
use crate::accounts::clone_accounts;
use crate::types::{is_total, AccountId, AssetId, EraIndex, RewardPoint};

verus! {

/// The sum of the points that a map gives to its accounts.
pub open spec fn sum_points(individual: Map<AccountId, RewardPoint>) -> nat
    decreases individual.dom().len(),
    when individual.dom().finite()
{
    if individual.dom().len() == 0 {
        0
    } else {
        let account = individual.dom().choose();
        individual[account] as nat + sum_points(individual.remove(account))
    }
}

/// The points of an account; none for an account without an entry.
pub open spec fn points_of(individual: Map<AccountId, RewardPoint>, account: AccountId) -> RewardPoint {
    if individual.contains_key(account) {
        individual[account]
    } else {
        0
    }
}

/// The sum splits at every account that has an entry.
pub proof fn lemma_sum_split(individual: Map<AccountId, RewardPoint>, account: AccountId)
    requires
        individual.dom().finite(),
        individual.contains_key(account),
    ensures
        sum_points(individual) == individual[account] + sum_points(individual.remove(account)),
    decreases individual.dom().len(),
{
    let chosen = individual.dom().choose();
    if chosen != account {
        lemma_sum_split(individual.remove(chosen), account);
        lemma_sum_split(individual.remove(account), chosen);
        assert(individual.remove(chosen).remove(account) =~= individual.remove(account).remove(chosen));
    }
}

/// Giving an account new points changes the sum by the difference to its old points.
pub proof fn lemma_sum_insert(individual: Map<AccountId, RewardPoint>, account: AccountId, points: RewardPoint)
    requires
        individual.dom().finite(),
    ensures
        sum_points(individual.insert(account, points)) == sum_points(individual) - points_of(individual, account)
            + points,
        points_of(individual, account) <= sum_points(individual),
{
    let after = individual.insert(account, points);
    lemma_sum_split(after, account);
    assert(after.remove(account) =~= individual.remove(account));
    if individual.contains_key(account) {
        lemma_sum_split(individual, account);
    } else {
        assert(individual.remove(account) =~= individual);
    }
}

/// What a record of reward points holds.
pub struct PointsView {
    /// The total number of points.
    pub total: RewardPoint,
    /// The points of the individual accounts.
    pub individual: Map<AccountId, RewardPoint>,
}

impl PointsView {
    /// The record in which nobody has a point.
    pub open spec fn empty() -> PointsView {
        PointsView { total: 0, individual: Map::empty() }
    }

    /// The total is the sum of the individual points.
    pub open spec fn wf(self) -> bool {
        &&& self.individual.dom().finite()
        &&& self.total == sum_points(self.individual)
    }

    /// The record after `account` earned one more point.
    pub open spec fn credited(self, account: AccountId) -> PointsView {
        PointsView {
            total: (self.total + 1) as RewardPoint,
            individual: self.individual.insert(account, (points_of(self.individual, account) + 1) as RewardPoint),
        }
    }

    /// The record after each of `accounts` earned one more point, an account
    /// that occurs several times one for each occurrence.
    pub open spec fn credited_all(self, accounts: Seq<AccountId>) -> PointsView
        decreases accounts.len(),
    {
        if accounts.len() == 0 {
            self
        } else {
            self.credited_all(accounts.drop_last()).credited(accounts.last())
        }
    }
}

/// A credit keeps the total equal to the sum of the individual points.
pub proof fn lemma_credited(points: PointsView, account: AccountId)
    requires
        points.wf(),
        points.total < RewardPoint::MAX,
    ensures
        points.credited(account).wf(),
        points.credited(account).total == points.total + 1,
        points_of(points.credited(account).individual, account) == points_of(points.individual, account) + 1,
{
    lemma_sum_insert(points.individual, account, (points_of(points.individual, account) + 1) as RewardPoint);
}

/// Any number of credits keeps the total equal to the sum of the individual
/// points, and raises the total by the number of credits.
pub proof fn lemma_credited_all(points: PointsView, accounts: Seq<AccountId>)
    requires
        points.wf(),
        points.total + accounts.len() <= RewardPoint::MAX,
    ensures
        points.credited_all(accounts).wf(),
        points.credited_all(accounts).total == points.total + accounts.len(),
    decreases accounts.len(),
{
    if accounts.len() > 0 {
        lemma_credited_all(points, accounts.drop_last());
        lemma_credited(points.credited_all(accounts.drop_last()), accounts.last());
    }
}

/// Reward points of the accounts that worked for one asset during one era.
#[derive(Debug, PartialEq, Eq)]
pub struct EraRewardPoints {
    total: RewardPoint,
    individual: BTreeMap<AccountId, RewardPoint>,
}

impl View for EraRewardPoints {
    type V = PointsView;

    closed spec fn view(&self) -> PointsView {
        PointsView { total: self.total, individual: self.individual@ }
    }
}

impl Default for EraRewardPoints {
    /// The record in which nobody has a point.
    fn default() -> (points: EraRewardPoints)
        ensures
            points@ == PointsView::empty(),
    {
        EraRewardPoints::new()
    }
}

impl EraRewardPoints {
    /// The record in which nobody has a point.
    pub fn new() -> (points: EraRewardPoints)
        ensures
            points@ == PointsView::empty(),
            points@.wf(),
    {
        EraRewardPoints { total: 0, individual: BTreeMap::new() }
    }

    /// The total number of points.
    pub fn total(&self) -> (total: RewardPoint)
        ensures
            total == self@.total,
    {
        self.total
    }

    /// The points of one account.
    pub fn individual(&self, account: AccountId) -> (points: RewardPoint)
        ensures
            points == points_of(self@.individual, account),
    {
        match self.individual.get(&account) {
            Some(points) => *points,
            None => 0,
        }
    }

    /// A copy of the record.
    pub fn duplicate(&self) -> (copy: EraRewardPoints)
        ensures
            copy@ == self@,
    {
        EraRewardPoints { total: self.total, individual: self.individual.clone() }
    }

    /// Gives `account` one more point.
    pub fn credit(&mut self, account: AccountId)
        requires
            old(self)@.wf(),
            old(self)@.total < RewardPoint::MAX,
        ensures
            final(self)@ == old(self)@.credited(account),
            final(self)@.wf(),
    {
        proof {
            lemma_credited(self@, account);
            lemma_sum_insert(self@.individual, account, 0);
        }
        let points: RewardPoint = self.individual(account);
        self.individual.insert(account, points + 1);
        self.total = self.total + 1;
    }
}

/// What the reward ledger holds.
pub struct LedgerView {
    /// The reward points of every era and asset; the empty record where nothing was credited.
    pub points: Map<(EraIndex, AssetId), PointsView>,
    /// The accounts credited during every era, one entry for each credit.
    pub participation: Map<EraIndex, Seq<AccountId>>,
}

impl LedgerView {
    /// The ledger in which nothing was credited.
    pub open spec fn empty() -> LedgerView {
        LedgerView {
            points: Map::total(|key: (EraIndex, AssetId)| PointsView::empty()),
            participation: Map::total(|era: EraIndex| Seq::<AccountId>::empty()),
        }
    }

    /// There is a record for every era and asset, and in every record the
    /// total is the sum of the individual points.
    pub open spec fn wf(self) -> bool {
        &&& is_total(self.points)
        &&& is_total(self.participation)
        &&& forall|era: EraIndex, asset_id: AssetId| (#[trigger] self.points[(era, asset_id)]).wf()
    }

    /// The ledger after each of `accounts` earned a point for `asset_id` during `era`.
    pub open spec fn credited_all(self, era: EraIndex, asset_id: AssetId, accounts: Seq<AccountId>) -> LedgerView {
        LedgerView {
            points: self.points.insert((era, asset_id), self.points[(era, asset_id)].credited_all(accounts)),
            participation: self.participation.insert(era, self.participation[era] + accounts),
        }
    }

    /// The ledger after `account` earned a point for `asset_id` during `era`.
    pub open spec fn credited(self, era: EraIndex, asset_id: AssetId, account: AccountId) -> LedgerView {
        self.credited_all(era, asset_id, seq![account])
    }

    /// Tells whether the record of `era` and `asset_id` can take `count` more points.
    pub open spec fn has_room(self, era: EraIndex, asset_id: AssetId, count: nat) -> bool {
        self.points[(era, asset_id)].total + count <= RewardPoint::MAX
    }
}

/// Credits keep every record of the ledger sound.
pub proof fn lemma_ledger_credited_all(ledger: LedgerView, era: EraIndex, asset_id: AssetId, accounts: Seq<AccountId>)
    requires
        ledger.wf(),
        ledger.has_room(era, asset_id, accounts.len()),
    ensures
        ledger.credited_all(era, asset_id, accounts).wf(),
        ledger.credited_all(era, asset_id, accounts).points[(era, asset_id)].total == ledger.points[(
            era,
            asset_id,
        )].total + accounts.len(),
{
    let record = ledger.points[(era, asset_id)];
    assert(record.wf());
    lemma_credited_all(record, accounts);
    let after = ledger.credited_all(era, asset_id, accounts);
    assert forall|e: EraIndex, a: AssetId| (#[trigger] after.points[(e, a)]).wf() by {
        if (e, a) != (era, asset_id) {
            assert(ledger.points[(e, a)].wf());
        }
    }
}

/// Per-era, per-asset accounting of the work that accounts did.
pub struct RewardLedger {
    points: BTreeMap<EraIndex, BTreeMap<AssetId, EraRewardPoints>>,
    participation: BTreeMap<EraIndex, Vec<AccountId>>,
}

impl View for RewardLedger {
    type V = LedgerView;

    closed spec fn view(&self) -> LedgerView {
        LedgerView {
            points: Map::total(
                |key: (EraIndex, AssetId)|
                    if self.points@.contains_key(key.0) && self.points@[key.0]@.contains_key(key.1) {
                        self.points@[key.0]@[key.1]@
                    } else {
                        PointsView::empty()
                    },
            ),
            participation: Map::total(
                |era: EraIndex|
                    if self.participation@.contains_key(era) {
                        self.participation@[era]@
                    } else {
                        Seq::empty()
                    },
            ),
        }
    }
}

impl RewardLedger {
    /// In every record the total is the sum of the individual points.
    pub open spec fn wf(&self) -> bool {
        self@.wf()
    }

    /// The ledger in which nothing was credited.
    pub fn new() -> (ledger: RewardLedger)
        ensures
            ledger@ == LedgerView::empty(),
            ledger.wf(),
    {
        let ledger = RewardLedger { points: BTreeMap::new(), participation: BTreeMap::new() };
        assert(ledger@.points =~= LedgerView::empty().points);
        assert(ledger@.participation =~= LedgerView::empty().participation);
        assert(sum_points(Map::<AccountId, RewardPoint>::empty()) == 0);
        ledger
    }

    /// The reward points of an era and asset.
    pub fn eras_reward_points(&self, era: EraIndex, asset_id: AssetId) -> (points: EraRewardPoints)
        ensures
            points@ == self@.points[(era, asset_id)],
    {
        match self.points.get(&era) {
            Some(assets) => match assets.get(&asset_id) {
                Some(points) => points.duplicate(),
                None => EraRewardPoints::new(),
            },
            None => EraRewardPoints::new(),
        }
    }

    /// The points that the record of an era and asset can still take.
    pub fn room(&self, era: EraIndex, asset_id: AssetId) -> (room: RewardPoint)
        ensures
            room == RewardPoint::MAX - self@.points[(era, asset_id)].total,
            forall|count: nat| count <= room <==> self@.has_room(era, asset_id, count),
    {
        let taken: RewardPoint = match self.points.get(&era) {
            Some(assets) => match assets.get(&asset_id) {
                Some(points) => points.total(),
                None => 0,
            },
            None => 0,
        };
        RewardPoint::MAX - taken
    }

    /// The accounts credited during an era, one entry for each credit.
    pub fn total_session_rewards(&self, era: EraIndex) -> (accounts: Vec<AccountId>)
        ensures
            accounts@ == self@.participation[era],
    {
        match self.participation.get(&era) {
            Some(accounts) => clone_accounts(accounts),
            None => Vec::new(),
        }
    }

    /// Tells whether an account was credited during an era.
    pub fn took_part(&self, era: EraIndex, account: AccountId) -> (found: bool)
        ensures
            found == self@.participation[era].contains(account),
    {
        match self.participation.get(&era) {
            Some(accounts) => crate::accounts::contains(accounts, account),
            None => {
                assert(!Seq::<AccountId>::empty().contains(account));
                false
            },
        }
    }

    /// Gives each of `accounts` a point for `asset_id` during `era`, and
    /// enters each among those who took part in the era.
    pub fn credit_points(&mut self, era: EraIndex, asset_id: AssetId, accounts: &Vec<AccountId>)
        requires
            old(self).wf(),
            old(self)@.has_room(era, asset_id, accounts@.len()),
        ensures
            final(self).wf(),
            final(self)@ == old(self)@.credited_all(era, asset_id, accounts@),
    {
        proof {
            lemma_ledger_credited_all(self@, era, asset_id, accounts@);
        }
        let mut assets: BTreeMap<AssetId, EraRewardPoints> = match self.points.remove(&era) {
            Some(assets) => assets,
            None => BTreeMap::new(),
        };
        let mut record: EraRewardPoints = match assets.remove(&asset_id) {
            Some(record) => record,
            None => EraRewardPoints::new(),
        };
        let mut participants: Vec<AccountId> = match self.participation.remove(&era) {
            Some(participants) => participants,
            None => Vec::new(),
        };
        let ghost before = old(self)@.points[(era, asset_id)];
        let ghost took_part = old(self)@.participation[era];
        assert(record@ == before);
        assert(before.wf());
        assert(participants@ == took_part);
        let mut i: usize = 0;
        while i < accounts.len()
            invariant
                i <= accounts.len(),
                before.wf(),
                before.total + accounts@.len() <= RewardPoint::MAX,
                record@ == before.credited_all(accounts@.take(i as int)),
                participants@ == took_part + accounts@.take(i as int),
            decreases accounts.len() - i,
        {
            proof {
                lemma_credited_all(before, accounts@.take(i as int));
                assert(accounts@.take(i + 1).drop_last() == accounts@.take(i as int));
            }
            record.credit(accounts[i]);
            participants.push(accounts[i]);
            assert(participants@ == took_part + accounts@.take(i + 1));
            i += 1;
        }
        assert(accounts@.take(accounts.len() as int) == accounts@);
        assets.insert(asset_id, record);
        self.points.insert(era, assets);
        self.participation.insert(era, participants);
        assert(self@.points =~= old(self)@.credited_all(era, asset_id, accounts@).points);
        assert(self@.participation =~= old(self)@.credited_all(era, asset_id, accounts@).participation);
    }

    /// Gives `account` a point for `asset_id` during `era`, and enters it
    /// among those who took part in the era.
    pub fn credit_point(&mut self, era: EraIndex, asset_id: AssetId, account: AccountId)
        requires
            old(self).wf(),
            old(self)@.has_room(era, asset_id, 1),
        ensures
            final(self).wf(),
            final(self)@ == old(self)@.credited(era, asset_id, account),
            final(self)@.points[(era, asset_id)] == old(self)@.points[(era, asset_id)].credited(account),
            final(self)@.participation[era] == old(self)@.participation[era].push(account),
    {
        let mut one: Vec<AccountId> = Vec::new();
        one.push(account);
        assert(one@ == seq![account]);
        self.credit_points(era, asset_id, &one);
        proof {
            let before = old(self)@.points[(era, asset_id)];
            reveal_with_fuel(PointsView::credited_all, 2);
            assert(seq![account].drop_last() =~= Seq::<AccountId>::empty());
            assert(before.credited_all(seq![account]) == before.credited(account));
            assert(old(self)@.participation[era] + seq![account] =~= old(self)@.participation[era].push(account));
        }
    }
}

} // verus!

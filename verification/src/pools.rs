//! The storage-provider pools: for every asset the accounts that asked to
//! provide storage, those that pinned the content, and those that were
//! promoted to providers.

use std::collections::BTreeMap;
use vstd::prelude::*;
use crate::accounts::{
    clone_accounts, common, contains, lemma_concat_members, lemma_filter_members, lemma_push_members, member_of,
    occurs_once, select_by_membership,
};
use crate::types::{AccountId, AssetId, Error};

verus! {

/// What the pool of one asset holds.
pub struct PoolView {
    /// The accounts that asked to join and were not yet promoted or dropped.
    pub candidates: Seq<AccountId>,
    /// The accounts that confirmed to have pinned the content.
    pub pinners: Seq<AccountId>,
    /// The accounts that provide storage.
    pub providers: Seq<AccountId>,
}

impl PoolView {
    /// The pool that nobody has asked to join.
    pub open spec fn empty() -> PoolView {
        PoolView { candidates: Seq::empty(), pinners: Seq::empty(), providers: Seq::empty() }
    }

    /// No account is listed twice as a candidate, as a pinner or as a
    /// provider, no candidate is a provider, and every account that pinned
    /// is a candidate or a provider.
    pub open spec fn wf(self) -> bool {
        &&& self.candidates.no_duplicates()
        &&& self.pinners.no_duplicates()
        &&& self.providers.no_duplicates()
        &&& forall|account: AccountId| #[trigger] self.candidates.contains(account) ==> !self.providers.contains(account)
        &&& forall|account: AccountId| #[trigger]
            self.pinners.contains(account) ==> self.candidates.contains(account) || self.providers.contains(account)
    }

    /// Whether an account may ask to join, and if not, why.
    pub open spec fn check_join(self, who: AccountId) -> Result<(), Error> {
        if self.candidates.contains(who) {
            Err(Error::AlreadyACandidate)
        } else if self.providers.contains(who) {
            Err(Error::AlreadyPinned)
        } else {
            Ok(())
        }
    }

    /// The pool after `who` joined the candidates.
    pub open spec fn joined(self, who: AccountId) -> PoolView {
        PoolView { candidates: self.candidates.push(who), ..self }
    }

    /// Whether a pin of `pinner` may be confirmed, and if not, why.
    pub open spec fn check_pin(self, pinner: AccountId) -> Result<(), Error> {
        if !self.candidates.contains(pinner) {
            Err(Error::NotACandidate)
        } else if self.pinners.contains(pinner) {
            Err(Error::AlreadyPinned)
        } else {
            Ok(())
        }
    }

    /// The pool after `pinner` confirmed its pin.
    pub open spec fn pinned(self, pinner: AccountId) -> PoolView {
        PoolView { pinners: self.pinners.push(pinner), ..self }
    }

    /// The pool after a session rotation: the candidates that pinned become
    /// providers, in the order in which they asked, and every candidate
    /// leaves the queue, whether it pinned or not.
    pub open spec fn promoted(self) -> PoolView {
        PoolView {
            candidates: Seq::empty(),
            pinners: self.pinners,
            providers: self.providers + common(self.candidates, self.pinners),
        }
    }
}

/// What a session rotation makes of a pool: the providers of before stay,
/// in their order; the candidates that pinned follow them and nobody else
/// does; every provider is listed once; and no candidate is left.
pub open spec fn follows_rotation(before: PoolView, after: PoolView) -> bool {
    &&& after.candidates.len() == 0
    &&& after.pinners == before.pinners
    &&& after.providers.take(before.providers.len() as int) == before.providers
    &&& forall|account: AccountId| #[trigger]
        after.providers.contains(account) <==> before.providers.contains(account) || (before.candidates.contains(
            account,
        ) && before.pinners.contains(account))
    &&& forall|account: AccountId| #[trigger]
        after.providers.contains(account) ==> occurs_once(after.providers, account)
}

/// The empty pool is sound.
pub proof fn lemma_empty_pool()
    ensures
        PoolView::empty().wf(),
{
}

/// A pool stays sound when an account that may join does so.
pub proof fn lemma_joined(pool: PoolView, who: AccountId)
    requires
        pool.wf(),
        pool.check_join(who) is Ok,
    ensures
        pool.joined(who).wf(),
        pool.joined(who).candidates.contains(who),
{
    lemma_push_members(pool.candidates, who);
}

/// A pool stays sound when a pin that may be confirmed is confirmed.
pub proof fn lemma_pinned(pool: PoolView, pinner: AccountId)
    requires
        pool.wf(),
        pool.check_pin(pinner) is Ok,
    ensures
        pool.pinned(pinner).wf(),
        pool.pinned(pinner).pinners.contains(pinner),
{
    lemma_push_members(pool.pinners, pinner);
}

/// A pool stays sound when the session rotates. Afterwards the providers
/// are those of before, in their order, followed by the candidates that
/// pinned; nobody provides twice, and nobody is a candidate.
pub proof fn lemma_promoted(pool: PoolView)
    requires
        pool.wf(),
    ensures
        pool.promoted().wf(),
        follows_rotation(pool, pool.promoted()),
{
    let chosen = common(pool.candidates, pool.pinners);
    lemma_filter_members(pool.candidates, member_of(pool.pinners));
    assert forall|account: AccountId| #[trigger] chosen.contains(account) implies !pool.providers.contains(account) by {
        assert(pool.candidates.contains(account));
    }
    lemma_concat_members(pool.providers, chosen);
}

/// Promoting twice in a row is promoting once, and the empty pool stays empty.
pub proof fn lemma_promoted_again(pool: PoolView)
    ensures
        pool.promoted().promoted() == pool.promoted(),
        PoolView::empty().promoted() == PoolView::empty(),
{
    reveal(Seq::filter);
    assert(common(Seq::<AccountId>::empty(), pool.pinners) =~= Seq::<AccountId>::empty());
    assert(pool.promoted().providers + Seq::<AccountId>::empty() =~= pool.promoted().providers);
    assert(common(Seq::<AccountId>::empty(), Seq::<AccountId>::empty()) =~= Seq::<AccountId>::empty());
    assert(Seq::<AccountId>::empty() + Seq::<AccountId>::empty() =~= Seq::<AccountId>::empty());
}

/// The pools of all assets after a session rotation.
pub open spec fn all_promoted(pools: Map<AssetId, PoolView>) -> Map<AssetId, PoolView> {
    Map::total(|asset_id: AssetId| pools[asset_id].promoted())
}

/// The pool of one asset.
struct StoragePool {
    candidates: Vec<AccountId>,
    pinners: Vec<AccountId>,
    providers: Vec<AccountId>,
}

impl View for StoragePool {
    type V = PoolView;

    closed spec fn view(&self) -> PoolView {
        PoolView { candidates: self.candidates@, pinners: self.pinners@, providers: self.providers@ }
    }
}

/// The storage-provider pools of all assets.
pub struct StoragePools {
    /// The pool of every asset that somebody asked to join.
    pools: BTreeMap<AssetId, StoragePool>,
    /// The assets that have a pool, by which the rotation walks the pools.
    /// It repeats what `pools` knows and is no part of what the pools hold.
    assets: Vec<AssetId>,
}

impl View for StoragePools {
    type V = Map<AssetId, PoolView>;

    closed spec fn view(&self) -> Map<AssetId, PoolView> {
        Map::total(
            |asset_id: AssetId|
                if self.pools@.contains_key(asset_id) {
                    self.pools@[asset_id]@
                } else {
                    PoolView::empty()
                },
        )
    }
}

impl StoragePools {
    /// Every asset that has a pool is listed.
    pub closed spec fn wf(&self) -> bool {
        forall|asset_id: AssetId| #[trigger] self.pools@.contains_key(asset_id) ==> self.assets@.contains(asset_id)
    }


    /// The pools before anybody asked to join one.
    pub fn new() -> (pools: StoragePools)
        ensures
            pools.wf(),
            pools@ == Map::total(|asset_id: AssetId| PoolView::empty()),
    {
        let pools = StoragePools { pools: BTreeMap::new(), assets: Vec::new() };
        assert(pools@ =~= Map::total(|asset_id: AssetId| PoolView::empty()));
        pools
    }

    /// The accounts that asked to provide storage for an asset.
    pub fn candidate_storage_providers(&self, asset_id: AssetId) -> (accounts: Vec<AccountId>)
        ensures
            accounts@ == self@[asset_id].candidates,
    {
        match self.pools.get(&asset_id) {
            Some(pool) => clone_accounts(&pool.candidates),
            None => Vec::new(),
        }
    }

    /// The accounts that provide storage for an asset.
    pub fn storage_providers(&self, asset_id: AssetId) -> (accounts: Vec<AccountId>)
        ensures
            accounts@ == self@[asset_id].providers,
    {
        match self.pools.get(&asset_id) {
            Some(pool) => clone_accounts(&pool.providers),
            None => Vec::new(),
        }
    }

    /// The accounts that confirmed to have pinned the content of an asset.
    pub fn pinners(&self, asset_id: AssetId) -> (accounts: Vec<AccountId>)
        ensures
            accounts@ == self@[asset_id].pinners,
    {
        match self.pools.get(&asset_id) {
            Some(pool) => clone_accounts(&pool.pinners),
            None => Vec::new(),
        }
    }

    /// Tells whether an account may ask to join the pool of an asset, and if not, why.
    pub fn check_join(&self, asset_id: AssetId, who: AccountId) -> (result: Result<(), Error>)
        ensures
            result == self@[asset_id].check_join(who),
    {
        match self.pools.get(&asset_id) {
            Some(pool) => {
                if contains(&pool.candidates, who) {
                    Err(Error::AlreadyACandidate)
                } else if contains(&pool.providers, who) {
                    Err(Error::AlreadyPinned)
                } else {
                    Ok(())
                }
            },
            None => {
                assert(!Seq::<AccountId>::empty().contains(who));
                Ok(())
            },
        }
    }

    /// Tells whether a pin of `pinner` for an asset may be confirmed, and if not, why.
    pub fn check_pin(&self, asset_id: AssetId, pinner: AccountId) -> (result: Result<(), Error>)
        ensures
            result == self@[asset_id].check_pin(pinner),
    {
        match self.pools.get(&asset_id) {
            Some(pool) => {
                if !contains(&pool.candidates, pinner) {
                    Err(Error::NotACandidate)
                } else if contains(&pool.pinners, pinner) {
                    Err(Error::AlreadyPinned)
                } else {
                    Ok(())
                }
            },
            None => {
                assert(!Seq::<AccountId>::empty().contains(pinner));
                Err(Error::NotACandidate)
            },
        }
    }

    /// Takes the pool of an asset out of the map, leaving the asset listed.
    fn take_pool(&mut self, asset_id: AssetId) -> (pool: StoragePool)
        requires
            old(self).wf(),
        ensures
            pool@ == old(self)@[asset_id],
            final(self).assets@.contains(asset_id),
            final(self).pools@ == old(self).pools@.remove(asset_id),
            forall|other: AssetId| old(self).assets@.contains(other) ==> final(self).assets@.contains(other),
    {
        match self.pools.remove(&asset_id) {
            Some(pool) => {
                assert(old(self).pools@.contains_key(asset_id));
                pool
            },
            None => {
                assert(self.pools@ =~= old(self).pools@.remove(asset_id));
                if !lists(&self.assets, asset_id) {
                    self.assets.push(asset_id);
                    assert(self.assets@[self.assets@.len() - 1] == asset_id);
                    assert forall|other: AssetId| old(self).assets@.contains(other) implies self.assets@.contains(
                        other,
                    ) by {
                        let i = choose|i: int| 0 <= i < old(self).assets@.len() && old(self).assets@[i] == other;
                        assert(self.assets@[i] == other);
                    }
                }
                StoragePool { candidates: Vec::new(), pinners: Vec::new(), providers: Vec::new() }
            },
        }
    }

    /// Enters `who` among the candidates of an asset.
    pub fn enqueue(&mut self, asset_id: AssetId, who: AccountId)
        requires
            old(self).wf(),
        ensures
            final(self).wf(),
            final(self)@ == old(self)@.insert(asset_id, old(self)@[asset_id].joined(who)),
    {
        let mut pool = self.take_pool(asset_id);
        pool.candidates.push(who);
        self.pools.insert(asset_id, pool);
        assert(self@ =~= old(self)@.insert(asset_id, old(self)@[asset_id].joined(who)));
    }

    /// Enters `pinner` among the accounts that pinned the content of an asset.
    pub fn record_pin(&mut self, asset_id: AssetId, pinner: AccountId)
        requires
            old(self).wf(),
        ensures
            final(self).wf(),
            final(self)@ == old(self)@.insert(asset_id, old(self)@[asset_id].pinned(pinner)),
    {
        let mut pool = self.take_pool(asset_id);
        pool.pinners.push(pinner);
        self.pools.insert(asset_id, pool);
        assert(self@ =~= old(self)@.insert(asset_id, old(self)@[asset_id].pinned(pinner)));
    }

    /// Moves the candidates that pinned to the providers, for every asset,
    /// and empties every candidate queue.
    pub fn select_candidate_storage_providers(&mut self)
        requires
            old(self).wf(),
        ensures
            final(self).wf(),
            final(self)@ == all_promoted(old(self)@),
    {
        let mut i: usize = 0;
        while i < self.assets.len()
            invariant
                i <= self.assets.len(),
                self.wf(),
                self.assets == old(self).assets,
                self.pools@.dom() == old(self).pools@.dom(),
                forall|asset_id: AssetId| #[trigger]
                    self.pools@.contains_key(asset_id) ==> self.pools@[asset_id]@ == if self.assets@.take(
                        i as int,
                    ).contains(asset_id) {
                        old(self).pools@[asset_id]@.promoted()
                    } else {
                        old(self).pools@[asset_id]@
                    },
            decreases self.assets.len() - i,
        {
            let asset_id: AssetId = self.assets[i];
            let ghost before = self.pools@;
            let ghost seen = self.assets@.take(i as int);
            let taken = self.pools.remove(&asset_id);
            proof {
                assert(self.assets@.take(i + 1) =~= seen.push(asset_id));
                assert forall|other: AssetId| #[trigger] self.assets@.take(i + 1).contains(other) <==> (seen.contains(
                    other,
                ) || other == asset_id) by {
                    if seen.contains(other) {
                        let j = choose|j: int| 0 <= j < seen.len() && seen[j] == other;
                        assert(seen.push(asset_id)[j] == other);
                    }
                    if other == asset_id {
                        assert(seen.push(asset_id)[seen.len() as int] == other);
                    }
                }
            }
            match taken {
                Some(mut pool) => {
                    let ghost was = pool@;
                    let mut chosen = select_by_membership(&pool.candidates, &pool.pinners, true);
                    pool.providers.append(&mut chosen);
                    pool.candidates = Vec::new();
                    assert(pool@ == was.promoted());
                    proof {
                        lemma_promoted_again(old(self).pools@[asset_id]@);
                    }
                    self.pools.insert(asset_id, pool);
                    assert(self.pools@.dom() =~= old(self).pools@.dom());
                },
                None => {
                    assert(self.pools@ =~= before);
                },
            }
            i += 1;
        }
        proof {
            assert(self.assets@.take(self.assets.len() as int) == self.assets@);
            lemma_promoted_again(PoolView::empty());
            assert forall|asset_id: AssetId| #[trigger] self@[asset_id] == all_promoted(old(self)@)[asset_id] by {
                if self.pools@.contains_key(asset_id) {
                    assert(old(self).pools@.contains_key(asset_id));
                    assert(self.assets@.contains(asset_id));
                }
            }
            assert(self@ =~= all_promoted(old(self)@));
        }
    }
}

/// Tells whether an asset is in the list.
fn lists(assets: &Vec<AssetId>, asset_id: AssetId) -> (found: bool)
    ensures
        found == assets@.contains(asset_id),
{
    let mut i: usize = 0;
    while i < assets.len()
        invariant
            i <= assets.len(),
            forall|j: int| 0 <= j < i ==> assets@[j] != asset_id,
        decreases assets.len() - i,
    {
        if assets[i] == asset_id {
            return true;
        }
        i += 1;
    }
    false
}

} // verus!

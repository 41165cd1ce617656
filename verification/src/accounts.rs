//! Lists of accounts: membership, removal and the facts about them that the
//! components rely on.

use vstd::prelude::*;
use crate::types::AccountId;

verus! {

/// The test that every account but `account` passes.
pub open spec fn is_not(account: AccountId) -> spec_fn(AccountId) -> bool {
    |v: AccountId| v != account
}

/// The test that the members of `other` pass.
pub open spec fn member_of(other: Seq<AccountId>) -> spec_fn(AccountId) -> bool {
    |v: AccountId| other.contains(v)
}

/// The test that the accounts outside `other` pass.
pub open spec fn absent_from(other: Seq<AccountId>) -> spec_fn(AccountId) -> bool {
    |v: AccountId| !other.contains(v)
}

/// The list without every occurrence of `account`.
pub open spec fn without(list: Seq<AccountId>, account: AccountId) -> Seq<AccountId> {
    list.filter(is_not(account))
}

/// The list without the members of `removed`.
pub open spec fn without_all(list: Seq<AccountId>, removed: Seq<AccountId>) -> Seq<AccountId> {
    list.filter(absent_from(removed))
}

/// The members of `list` that also occur in `other`, in the order of `list`.
pub open spec fn common(list: Seq<AccountId>, other: Seq<AccountId>) -> Seq<AccountId> {
    list.filter(member_of(other))
}

/// Filtering keeps exactly the members that pass, and keeps them distinct.
pub proof fn lemma_filter_members(list: Seq<AccountId>, pred: spec_fn(AccountId) -> bool)
    ensures
        forall|a: AccountId| #[trigger] list.filter(pred).contains(a) <==> list.contains(a) && pred(a),
        list.no_duplicates() ==> list.filter(pred).no_duplicates(),
        list.filter(pred).len() <= list.len(),
    decreases list.len(),
{
    reveal(Seq::filter);
    if list.len() > 0 {
        let init = list.drop_last();
        let last = list.last();
        lemma_filter_members(init, pred);
        let sub = init.filter(pred);
        assert forall|a: AccountId| #[trigger] list.filter(pred).contains(a) <==> list.contains(a) && pred(a) by {
            if list.filter(pred).contains(a) {
                let i = choose|i: int| 0 <= i < list.filter(pred).len() && list.filter(pred)[i] == a;
                if i < sub.len() {
                    assert(sub[i] == a);
                    assert(sub.contains(a));
                    let j = choose|j: int| 0 <= j < init.len() && init[j] == a;
                    assert(list[j] == a);
                } else {
                    assert(a == last);
                    assert(list[list.len() - 1] == a);
                }
            }
            if list.contains(a) && pred(a) {
                let j = choose|j: int| 0 <= j < list.len() && list[j] == a;
                if j < init.len() {
                    assert(init[j] == a);
                    assert(init.contains(a));
                    assert(sub.contains(a));
                    let i = choose|i: int| 0 <= i < sub.len() && sub[i] == a;
                    assert(list.filter(pred)[i] == a);
                } else {
                    assert(list.filter(pred)[sub.len() as int] == a);
                }
            }
        }
        if list.no_duplicates() {
            assert(init.no_duplicates());
            if pred(last) {
                if sub.contains(last) {
                    assert(init.contains(last));
                    let j = choose|j: int| 0 <= j < init.len() && init[j] == last;
                    assert(list[j] == list[list.len() - 1]);
                }
                assert forall|i: int, j: int|
                    0 <= i < sub.push(last).len() && 0 <= j < sub.push(last).len() && i != j
                    implies sub.push(last)[i] != sub.push(last)[j] by {
                    if i < sub.len() && j < sub.len() {
                    } else if i < sub.len() {
                        assert(sub.contains(sub[i]));
                    } else {
                        assert(sub.contains(sub[j]));
                    }
                }
            }
        }
    }
}

/// Removing one account from a list of distinct accounts shortens it by at most one.
pub proof fn lemma_without_len(list: Seq<AccountId>, account: AccountId)
    requires
        list.no_duplicates(),
    ensures
        without(list, account).len() == if list.contains(account) { list.len() - 1 } else { list.len() as int },
    decreases list.len(),
{
    reveal(Seq::filter);
    if list.len() > 0 {
        let init = list.drop_last();
        let last = list.last();
        assert(init.no_duplicates());
        lemma_without_len(init, account);
        if last == account {
            if init.contains(account) {
                let j = choose|j: int| 0 <= j < init.len() && init[j] == account;
                assert(list[j] == list[list.len() - 1]);
            }
            assert(list[list.len() - 1] == account);
        } else {
            if list.contains(account) {
                let j = choose|j: int| 0 <= j < list.len() && list[j] == account;
                assert(init[j] == account);
            }
            if init.contains(account) {
                let j = choose|j: int| 0 <= j < init.len() && init[j] == account;
                assert(list[j] == account);
            }
        }
    }
}

/// The account occurs in the list, and at one place only.
pub open spec fn occurs_once(list: Seq<AccountId>, account: AccountId) -> bool {
    &&& list.contains(account)
    &&& forall|i: int, j: int|
        0 <= i < list.len() && 0 <= j < list.len() && list[i] == account && list[j] == account ==> i == j
}

/// A list with one more account at its end holds that account and those of
/// before, and holds none twice if it held none twice and not the new one.
pub proof fn lemma_push_members(list: Seq<AccountId>, account: AccountId)
    ensures
        forall|a: AccountId| #[trigger] list.push(account).contains(a) <==> list.contains(a) || a == account,
        list.no_duplicates() && !list.contains(account) ==> list.push(account).no_duplicates(),
{
    let longer = list.push(account);
    assert forall|a: AccountId| #[trigger] longer.contains(a) <==> list.contains(a) || a == account by {
        if longer.contains(a) {
            let i = choose|i: int| 0 <= i < longer.len() && longer[i] == a;
            if i < list.len() {
                assert(list[i] == a);
            }
        }
        if list.contains(a) {
            let i = choose|i: int| 0 <= i < list.len() && list[i] == a;
            assert(longer[i] == a);
        }
        if a == account {
            assert(longer[list.len() as int] == a);
        }
    }
    if list.no_duplicates() && !list.contains(account) {
        assert forall|i: int, j: int| 0 <= i < longer.len() && 0 <= j < longer.len() && i != j implies longer[i]
            != longer[j] by {
            if i < list.len() && j < list.len() {
                assert(list[i] != list[j]);
            } else if i < list.len() {
                assert(list.contains(list[i]));
            } else {
                assert(list.contains(list[j]));
            }
        }
    }
}

/// Two lists one after the other hold the accounts of both, the first list
/// first, and hold none twice if neither did and they share none.
pub proof fn lemma_concat_members(first: Seq<AccountId>, second: Seq<AccountId>)
    ensures
        forall|a: AccountId| #[trigger] (first + second).contains(a) <==> first.contains(a) || second.contains(a),
        (first + second).take(first.len() as int) == first,
        first.no_duplicates() && second.no_duplicates() && (forall|a: AccountId| #[trigger]
            second.contains(a) ==> !first.contains(a)) ==> (first + second).no_duplicates(),
{
    let both = first + second;
    assert(both.take(first.len() as int) =~= first);
    assert forall|a: AccountId| #[trigger] both.contains(a) <==> first.contains(a) || second.contains(a) by {
        if both.contains(a) {
            let i = choose|i: int| 0 <= i < both.len() && both[i] == a;
            if i < first.len() {
                assert(first[i] == a);
            } else {
                assert(second[i - first.len()] == a);
            }
        }
        if first.contains(a) {
            let i = choose|i: int| 0 <= i < first.len() && first[i] == a;
            assert(both[i] == a);
        }
        if second.contains(a) {
            let i = choose|i: int| 0 <= i < second.len() && second[i] == a;
            assert(both[first.len() + i] == a);
        }
    }
    if first.no_duplicates() && second.no_duplicates() && (forall|a: AccountId| #[trigger]
        second.contains(a) ==> !first.contains(a)) {
        assert forall|i: int, j: int| 0 <= i < both.len() && 0 <= j < both.len() && i != j implies both[i]
            != both[j] by {
            if i < first.len() && j < first.len() {
                assert(first[i] != first[j]);
            } else if i >= first.len() && j >= first.len() {
                assert(second[i - first.len()] != second[j - first.len()]);
            } else if i < first.len() {
                assert(second.contains(second[j - first.len()]));
                assert(first.contains(first[i]));
            } else {
                assert(second.contains(second[i - first.len()]));
                assert(first.contains(first[j]));
            }
        }
    }
}

/// Removing an account that does not occur leaves the list as it is.
pub proof fn lemma_without_absent(list: Seq<AccountId>, account: AccountId)
    requires
        !list.contains(account),
    ensures
        without(list, account) == list,
    decreases list.len(),
{
    reveal(Seq::filter);
    if list.len() > 0 {
        let init = list.drop_last();
        assert(list[list.len() - 1] != account);
        assert forall|i: int| 0 <= i < init.len() implies init[i] != account by {
            assert(list[i] == init[i]);
        }
        lemma_without_absent(init, account);
        assert(init.push(list.last()) =~= list);
    } else {
        assert(without(list, account) =~= list);
    }
}

/// Tells whether `account` occurs in `list`.
pub fn contains(list: &Vec<AccountId>, account: AccountId) -> (found: bool)
    ensures
        found == list@.contains(account),
{
    let mut i: usize = 0;
    while i < list.len()
        invariant
            i <= list.len(),
            forall|j: int| 0 <= j < i ==> list@[j] != account,
        decreases list.len() - i,
    {
        if list[i] == account {
            return true;
        }
        i += 1;
    }
    false
}

/// Tells whether no account occurs twice in `list`.
pub fn is_distinct(list: &Vec<AccountId>) -> (distinct: bool)
    ensures
        distinct == list@.no_duplicates(),
{
    let mut i: usize = 0;
    while i < list.len()
        invariant
            i <= list.len(),
            forall|a: int, b: int| 0 <= a < b < i ==> list@[a] != list@[b],
        decreases list.len() - i,
    {
        let mut j: usize = 0;
        while j < i
            invariant
                j <= i,
                i < list.len(),
                forall|a: int| 0 <= a < j ==> list@[a] != list@[i as int],
            decreases i - j,
        {
            if list[j] == list[i] {
                return false;
            }
            j += 1;
        }
        i += 1;
    }
    true
}

/// Copies a list of accounts.
pub fn clone_accounts(list: &Vec<AccountId>) -> (copy: Vec<AccountId>)
    ensures
        copy@ == list@,
{
    let mut copy: Vec<AccountId> = Vec::new();
    let mut i: usize = 0;
    while i < list.len()
        invariant
            i <= list.len(),
            copy@ == list@.take(i as int),
        decreases list.len() - i,
    {
        copy.push(list[i]);
        i += 1;
    }
    copy
}

/// The list without every occurrence of `account`.
pub fn remove_account(list: &Vec<AccountId>, account: AccountId) -> (kept: Vec<AccountId>)
    ensures
        kept@ == without(list@, account),
{
    let ghost pred = is_not(account);
    let mut kept: Vec<AccountId> = Vec::new();
    let mut i: usize = 0;
    proof {
        reveal(Seq::filter);
    }
    while i < list.len()
        invariant
            i <= list.len(),
            pred == is_not(account),
            kept@ == list@.take(i as int).filter(pred),
        decreases list.len() - i,
    {
        proof {
            reveal(Seq::filter);
            assert(list@.take(i + 1).drop_last() == list@.take(i as int));
        }
        if list[i] != account {
            kept.push(list[i]);
        }
        i += 1;
    }
    assert(list@.take(list.len() as int) == list@);
    kept
}

/// The members of `list` whose membership in `other` is `keep_members`.
pub fn select_by_membership(list: &Vec<AccountId>, other: &Vec<AccountId>, keep_members: bool) -> (kept: Vec<AccountId>)
    ensures
        keep_members ==> kept@ == common(list@, other@),
        !keep_members ==> kept@ == without_all(list@, other@),
{
    let ghost pred = if keep_members { member_of(other@) } else { absent_from(other@) };
    let mut kept: Vec<AccountId> = Vec::new();
    let mut i: usize = 0;
    proof {
        reveal(Seq::filter);
    }
    while i < list.len()
        invariant
            i <= list.len(),
            pred == if keep_members { member_of(other@) } else { absent_from(other@) },
            kept@ == list@.take(i as int).filter(pred),
        decreases list.len() - i,
    {
        proof {
            reveal(Seq::filter);
            assert(list@.take(i + 1).drop_last() == list@.take(i as int));
        }
        if contains(other, list[i]) == keep_members {
            kept.push(list[i]);
        }
        i += 1;
    }
    assert(list@.take(list.len() as int) == list@);
    kept
}

} // verus!

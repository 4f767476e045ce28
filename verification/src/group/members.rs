use vstd::prelude::*;
use crate::group::model::GroupMember;
use crate::group::states::{GroupMemberRole, GroupPrincipalKind};
use crate::text::str_eq;

verus! {

/// What identifies a member in a snapshot comparison: principal kind, actor id
/// and role (the access level follows from the role).
pub open spec fn member_key(m: GroupMember) -> (GroupPrincipalKind, Seq<char>, GroupMemberRole) {
    (m.principal_kind, m.actor_id@, m.role)
}

/// How often a key occurs in a member list.
pub open spec fn key_count(ms: Seq<GroupMember>, k: (GroupPrincipalKind, Seq<char>, GroupMemberRole)) -> nat
    decreases ms.len(),
{
    if ms.len() == 0 {
        0
    } else {
        key_count(ms.drop_last(), k) + if member_key(ms.last()) == k {
            1nat
        } else {
            0nat
        }
    }
}

/// Two member snapshots differ when some member key occurs a different number
/// of times in them (the sorted normalized lists differ).
pub open spec fn member_sets_differ(a: Seq<GroupMember>, b: Seq<GroupMember>) -> bool {
    exists|k: (GroupPrincipalKind, Seq<char>, GroupMemberRole)| key_count(a, k) != key_count(b, k)
}

proof fn lemma_count_positive_has_member(ms: Seq<GroupMember>, k: (GroupPrincipalKind, Seq<char>, GroupMemberRole))
    requires
        key_count(ms, k) > 0,
    ensures
        exists|i: int| 0 <= i < ms.len() && member_key(#[trigger] ms[i]) == k,
    decreases ms.len(),
{
    if member_key(ms.last()) == k {
        assert(member_key(ms[ms.len() - 1]) == k);
    } else {
        lemma_count_positive_has_member(ms.drop_last(), k);
        let i = choose|i: int| 0 <= i < ms.drop_last().len() && member_key(#[trigger] ms.drop_last()[i]) == k;
        assert(ms[i] == ms.drop_last()[i]);
    }
}

fn same_key(a: &GroupMember, b: &GroupMember) -> (result: bool)
    ensures
        result == (member_key(*a) == member_key(*b)),
{
    a.principal_kind == b.principal_kind && a.role == b.role && str_eq(
        a.actor_id.as_str(),
        b.actor_id.as_str(),
    )
}

/// Counts the members of `ms` that share the key of `m`.
fn count_key(ms: &Vec<GroupMember>, m: &GroupMember) -> (result: usize)
    ensures
        result == key_count(ms@, member_key(*m)),
{
    let mut count: usize = 0;
    let mut i: usize = 0;
    while i < ms.len()
        invariant
            i <= ms@.len(),
            count == key_count(ms@.take(i as int), member_key(*m)),
            count <= i,
        decreases ms.len() - i,
    {
        proof {
            assert(ms@.take(i as int + 1).drop_last() =~= ms@.take(i as int));
            assert(ms@.take(i as int + 1).last() == ms@[i as int]);
        }
        if same_key(&ms[i], m) {
            count = count + 1;
        }
        i = i + 1;
    }
    proof {
        assert(ms@.take(ms@.len() as int) =~= ms@);
    }
    count
}

/// Whether a member snapshot differs from the stored one.
pub fn member_sets_changed(previous: &Vec<GroupMember>, next: &Vec<GroupMember>) -> (result: bool)
    ensures
        result == member_sets_differ(previous@, next@),
        previous@ == next@ ==> !result,
        (next@.len() == previous@.len() + 1 && next@.drop_last() == previous@) ==> result,
{
    proof {
        if next@.len() == previous@.len() + 1 && next@.drop_last() == previous@ {
            member_added_changes_the_set(previous@, next@.last());
            assert(previous@.push(next@.last()) =~= next@);
        }
    }
    let mut i: usize = 0;
    while i < previous.len()
        invariant
            i <= previous@.len(),
            forall|k: int| 0 <= k < i ==> key_count(previous@, member_key(#[trigger] previous@[k]))
                == key_count(next@, member_key(previous@[k])),
        decreases previous.len() - i,
    {
        let m = &previous[i];
        if count_key(previous, m) != count_key(next, m) {
            return true;
        }
        i = i + 1;
    }
    let mut j: usize = 0;
    while j < next.len()
        invariant
            j <= next@.len(),
            forall|k: int| 0 <= k < j ==> key_count(previous@, member_key(#[trigger] next@[k]))
                == key_count(next@, member_key(next@[k])),
        decreases next.len() - j,
    {
        let m = &next[j];
        if count_key(previous, m) != count_key(next, m) {
            return true;
        }
        j = j + 1;
    }
    proof {
        assert forall|key: (GroupPrincipalKind, Seq<char>, GroupMemberRole)| key_count(previous@, key)
            == key_count(next@, key) by {
            if key_count(previous@, key) > 0 {
                lemma_count_positive_has_member(previous@, key);
                let a = choose|a: int| 0 <= a < previous@.len() && member_key(#[trigger] previous@[a]) == key;
                assert(key_count(previous@, member_key(previous@[a])) == key_count(next@, member_key(previous@[a])));
            } else if key_count(next@, key) > 0 {
                lemma_count_positive_has_member(next@, key);
                let b = choose|b: int| 0 <= b < next@.len() && member_key(#[trigger] next@[b]) == key;
                assert(key_count(previous@, member_key(next@[b])) == key_count(next@, member_key(next@[b])));
            }
        }
    }
    false
}

/// Law: the member comparison sees real changes only. A snapshot never
/// differs from itself, and adding a member to a snapshot always changes it.
pub proof fn member_added_changes_the_set(ms: Seq<GroupMember>, m: GroupMember)
    ensures
        !member_sets_differ(ms, ms),
        member_sets_differ(ms, ms.push(m)),
{
    let k = member_key(m);
    assert(ms.push(m).drop_last() =~= ms);
    assert(key_count(ms.push(m), k) == key_count(ms, k) + 1);
}

} // verus!

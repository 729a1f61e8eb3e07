//! The mathematical model of the registry store: the first-match lookup over
//! an insertion-ordered sequence of member records, and the transition that a
//! vote performs on that sequence.

use vstd::prelude::*;

use crate::member::AccountId;
use crate::member::MemberInfo;

verus! {

/// The index of the first record in `members` whose identity is `id`, or -1
/// if no record matches. Duplicate identities may coexist in the store;
/// lookups resolve ties by the first match in insertion order.
pub open spec fn first_index_of(members: Seq<MemberInfo>, id: AccountId) -> int
    decreases members.len(),
{
    if members.len() == 0 {
        -1
    } else if members[0].member_id == id {
        0
    } else if first_index_of(members.drop_first(), id) == -1 {
        -1
    } else {
        first_index_of(members.drop_first(), id) + 1
    }
}

/// Whether some record in `members` carries the identity `id`.
pub open spec fn has_member(members: Seq<MemberInfo>, id: AccountId) -> bool {
    first_index_of(members, id) >= 0
}

/// The store after one vote for `id`: the first matching record's reputation
/// is raised by one and every other record is untouched. Without a match the
/// store is unchanged.
pub open spec fn after_vote(members: Seq<MemberInfo>, id: AccountId) -> Seq<MemberInfo> {
    let i = first_index_of(members, id);
    if i == -1 {
        members
    } else {
        members.update(
            i,
            (MemberInfo {
                member_id: members[i].member_id,
                reputation: (members[i].reputation + 1) as u32,
            }),
        )
    }
}

/// The store after `n` consecutive votes for `id`.
pub open spec fn after_votes(members: Seq<MemberInfo>, id: AccountId, n: nat) -> Seq<MemberInfo>
    decreases n,
{
    if n == 0 {
        members
    } else {
        after_vote(after_votes(members, id, (n - 1) as nat), id)
    }
}

/// Whether a reputation query for `id` succeeds: the identity must be
/// enrolled and its first matching record must already have received at
/// least one vote.
pub open spec fn query_succeeds(members: Seq<MemberInfo>, id: AccountId) -> bool {
    &&& has_member(members, id)
    &&& members[first_index_of(members, id)].reputation > 0
}

/// What `first_index_of` returns: a match within bounds that no earlier
/// record anticipates, or -1 exactly when nothing matches.
pub proof fn lemma_first_index_of(members: Seq<MemberInfo>, id: AccountId)
    ensures
        first_index_of(members, id) == -1 || 0 <= first_index_of(members, id) < members.len(),
        first_index_of(members, id) >= 0 ==> members[first_index_of(members, id)].member_id
            == id,
        forall|j: int|
            0 <= j < first_index_of(members, id) ==> members[j].member_id != id,
        first_index_of(members, id) == -1 ==> forall|j: int|
            0 <= j < members.len() ==> members[j].member_id != id,
    decreases members.len(),
{
    if members.len() > 0 && members[0].member_id != id {
        lemma_first_index_of(members.drop_first(), id);
        assert forall|j: int| 0 <= j < first_index_of(members, id) implies members[j].member_id
            != id by {
            if j > 0 {
                assert(members[j] == members.drop_first()[j - 1]);
            }
        }
        if first_index_of(members, id) == -1 {
            assert forall|j: int| 0 <= j < members.len() implies members[j].member_id != id by {
                if j > 0 {
                    assert(members[j] == members.drop_first()[j - 1]);
                }
            }
        }
    }
}

/// `first_index_of` is the only index that matches with no earlier match.
pub proof fn lemma_first_index_of_is(members: Seq<MemberInfo>, id: AccountId, k: int)
    requires
        0 <= k < members.len(),
        members[k].member_id == id,
        forall|j: int| 0 <= j < k ==> members[j].member_id != id,
    ensures
        first_index_of(members, id) == k,
    decreases members.len(),
{
    if k > 0 {
        assert forall|j: int| 0 <= j < k - 1 implies members.drop_first()[j].member_id != id by {
            assert(members.drop_first()[j] == members[j + 1]);
        }
        assert(members.drop_first()[k - 1] == members[k]);
        lemma_first_index_of_is(members.drop_first(), id, k - 1);
    }
}

} // verus!

//! Laws that relate the registry's operations across several calls: what a
//! vote does to the store, what repeated votes accumulate to, and why a
//! reputation query succeeds once a vote has been cast.

use vstd::prelude::*;

use crate::member::AccountId;
use crate::member::MemberInfo;
use crate::store::after_vote;
use crate::store::after_votes;
use crate::store::first_index_of;
use crate::store::has_member;
use crate::store::lemma_first_index_of;
use crate::store::lemma_first_index_of_is;
use crate::store::query_succeeds;

verus! {

/// Law: one vote for an enrolled member raises the first matching record's
/// reputation by exactly one, keeps its identity, leaves every other record
/// untouched, and leaves the member at the same (first-match) position.
pub proof fn lemma_after_vote(members: Seq<MemberInfo>, id: AccountId)
    requires
        has_member(members, id),
        members[first_index_of(members, id)].reputation < u32::MAX,
    ensures
        after_vote(members, id).len() == members.len(),
        first_index_of(after_vote(members, id), id) == first_index_of(members, id),
        after_vote(members, id)[first_index_of(members, id)].member_id == id,
        after_vote(members, id)[first_index_of(members, id)].reputation == members[first_index_of(
            members,
            id,
        )].reputation + 1,
        forall|j: int|
            0 <= j < members.len() && j != first_index_of(members, id) ==> after_vote(members, id)[j]
                == members[j],
{
    lemma_first_index_of(members, id);
    let fi = first_index_of(members, id);
    lemma_first_index_of_is(after_vote(members, id), id, fi);
}

/// Law: `n` consecutive votes for an enrolled member whose reputation is `r`
/// leave that member at the same position with reputation exactly `r + n`,
/// and leave every other record untouched.
pub proof fn lemma_repeated_votes(members: Seq<MemberInfo>, id: AccountId, n: nat)
    requires
        has_member(members, id),
        members[first_index_of(members, id)].reputation + n <= u32::MAX,
    ensures
        after_votes(members, id, n).len() == members.len(),
        first_index_of(after_votes(members, id, n), id) == first_index_of(members, id),
        after_votes(members, id, n)[first_index_of(members, id)].member_id == id,
        after_votes(members, id, n)[first_index_of(members, id)].reputation == members[
            first_index_of(members, id)].reputation + n,
        forall|j: int|
            0 <= j < members.len() && j != first_index_of(members, id) ==> after_votes(
                members,
                id,
                n,
            )[j] == members[j],
    decreases n,
{
    lemma_first_index_of(members, id);
    if n > 0 {
        lemma_repeated_votes(members, id, (n - 1) as nat);
        lemma_after_vote(after_votes(members, id, (n - 1) as nat), id);
    }
}

/// Law: after a successful vote for an enrolled member, querying that
/// member's reputation succeeds: the member is still enrolled and its first
/// matching record's reputation is positive.
pub proof fn lemma_query_succeeds_after_vote(members: Seq<MemberInfo>, id: AccountId)
    requires
        has_member(members, id),
        members[first_index_of(members, id)].reputation < u32::MAX,
    ensures
        query_succeeds(after_vote(members, id), id),
{
    lemma_after_vote(members, id);
}

} // verus!

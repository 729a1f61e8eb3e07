//! The registry and its access-controlled operations. Each operation either
//! fails with an [`Error`] and leaves the registry exactly as it was, or
//! succeeds, commits its whole effect, and returns the notification it
//! produced for the host to deliver.

use vstd::prelude::*;

use crate::error::Error;
use crate::events::MemberReputation;
use crate::events::NewMember;
use crate::events::Vote;
use crate::member::AccountId;
use crate::member::MemberInfo;
use crate::store::after_vote;
use crate::store::first_index_of;
use crate::store::has_member;
use crate::store::lemma_first_index_of;
use crate::store::query_succeeds;

verus! {

/// The membership registry: a fixed administrator, the insertion-ordered
/// member records, and the registry's own on-host identity.
pub struct Organization {
    pub admin: AccountId,
    pub members: Vec<MemberInfo>,
    pub address: AccountId,
}

impl Organization {
    /// Creates an empty registry for the given administrator, living at the
    /// given on-host address.
    pub fn new(admin: AccountId, address: AccountId) -> (r: Self)
        ensures
            r.admin == admin,
            r.address == address,
            r.members@.len() == 0,
    {
        let members_vector: Vec<MemberInfo> = Vec::new();
        Self { admin, members: members_vector, address }
    }

    /// Returns the registry's own on-host identity.
    pub fn get_contract_address(&self) -> (r: AccountId)
        ensures
            r == self.address,
    {
        self.address
    }

    /// Enrolls one member. Only the administrator may enroll: any other
    /// caller is refused and nothing changes. On success the record is
    /// appended to the store, duplicates and all, and the produced
    /// `NewMember` notification carries exactly the enrolled record.
    pub fn add_member(&mut self, caller: AccountId, member: MemberInfo) -> (r: Result<
        NewMember,
        Error,
    >)
        ensures
            final(self).admin == old(self).admin,
            final(self).address == old(self).address,
            caller != old(self).admin ==> {
                &&& r == Err::<NewMember, Error>(Error::Unauthorized)
                &&& final(self).members@ == old(self).members@
            },
            caller == old(self).admin ==> {
                &&& final(self).members@ == old(self).members@.push(member)
                &&& r == Ok::<NewMember, Error>(NewMember { member })
            },
    {
        if caller != self.admin {
            return Err(Error::Unauthorized);
        }
        self.members.push(member);
        Ok(NewMember { member })
    }

    /// Enrolls several members at once. Authorization is checked once up
    /// front; once the caller is known to be the administrator, every record
    /// is appended in input order and one `NewMember` notification is
    /// produced per record, in that same order.
    pub fn add_members(&mut self, caller: AccountId, members: Vec<MemberInfo>) -> (r: Result<
        Vec<NewMember>,
        Error,
    >)
        ensures
            final(self).admin == old(self).admin,
            final(self).address == old(self).address,
            caller != old(self).admin ==> {
                &&& r == Err::<Vec<NewMember>, Error>(Error::Unauthorized)
                &&& final(self).members@ == old(self).members@
            },
            caller == old(self).admin ==> {
                &&& r is Ok
                &&& final(self).members@ == old(self).members@ + members@
                &&& r->Ok_0@.len() == members@.len()
                &&& forall|i: int|
                    0 <= i < members@.len() ==> r->Ok_0@[i] == (NewMember {
                        member: members@[i],
                    })
            },
    {
        if caller != self.admin {
            return Err(Error::Unauthorized);
        }
        let mut events: Vec<NewMember> = Vec::new();
        let mut idx: usize = 0;
        while idx < members.len()
            invariant
                idx <= members@.len(),
                self.admin == old(self).admin,
                self.address == old(self).address,
                self.members@ == old(self).members@ + members@.subrange(0, idx as int),
                events@.len() == idx,
                forall|i: int|
                    0 <= i < idx ==> events@[i] == (NewMember { member: members@[i] }),
            decreases members@.len() - idx,
        {
            let item = members[idx];
            let member = MemberInfo { member_id: item.member_id, reputation: item.reputation };
            self.members.push(member);
            events.push(NewMember { member });
            assert(self.members@ =~= old(self).members@ + members@.subrange(0, idx + 1));
            idx = idx + 1;
        }
        assert(self.members@ =~= old(self).members@ + members@);
        Ok(events)
    }

    /// Whether some record in the store carries the identity `id`.
    fn is_member(&mut self, id: AccountId) -> (r: bool)
        ensures
            final(self).admin == old(self).admin,
            final(self).address == old(self).address,
            final(self).members@ == old(self).members@,
            r == has_member(old(self).members@, id),
    {
        let mut result: bool = false;
        let mut idx: usize = 0;
        while idx < self.members.len()
            invariant
                idx <= self.members@.len(),
                self.admin == old(self).admin,
                self.address == old(self).address,
                self.members@ == old(self).members@,
                result <==> exists|j: int|
                    0 <= j < idx && self.members@[j].member_id == id,
            decreases self.members@.len() - idx,
        {
            if self.members[idx].member_id == id {
                result = true;
            }
            idx = idx + 1;
        }
        proof {
            lemma_first_index_of(self.members@, id);
        }
        result
    }

    /// Casts a vote for `id`. No caller check is made: any caller may vote
    /// for any enrolled member. If `id` is not enrolled the call fails with
    /// `NotAMember` and nothing changes; otherwise the first matching
    /// record's reputation is raised by one and the produced `Vote`
    /// notification carries that updated record.
    pub fn vote(&mut self, id: AccountId) -> (r: Result<Vote, Error>)
        requires
            has_member(old(self).members@, id) ==> old(self).members@[first_index_of(
                old(self).members@,
                id,
            )].reputation < u32::MAX,
        ensures
            final(self).admin == old(self).admin,
            final(self).address == old(self).address,
            !has_member(old(self).members@, id) ==> {
                &&& r == Err::<Vote, Error>(Error::NotAMember)
                &&& final(self).members@ == old(self).members@
            },
            has_member(old(self).members@, id) ==> {
                &&& final(self).members@ == after_vote(old(self).members@, id)
                &&& r == Ok::<Vote, Error>(Vote {
                    member: after_vote(old(self).members@, id)[first_index_of(
                        old(self).members@,
                        id,
                    )],
                })
            },
    {
        if !self.is_member(id) {
            return Err(Error::NotAMember);
        }
        let member = self.vote_member(id);
        Ok(Vote { member })
    }

    /// The stricter variant of [`Self::vote`]: the vote is accepted only
    /// when the caller is itself an enrolled member. A non-member caller is
    /// refused with `NotAMember` and nothing changes; a member caller gets
    /// exactly what `vote` gives.
    pub fn vote_as_member(&mut self, caller: AccountId, id: AccountId) -> (r: Result<Vote, Error>)
        requires
            has_member(old(self).members@, id) ==> old(self).members@[first_index_of(
                old(self).members@,
                id,
            )].reputation < u32::MAX,
        ensures
            final(self).admin == old(self).admin,
            final(self).address == old(self).address,
            !has_member(old(self).members@, caller) ==> {
                &&& r == Err::<Vote, Error>(Error::NotAMember)
                &&& final(self).members@ == old(self).members@
            },
            has_member(old(self).members@, caller) && !has_member(old(self).members@, id) ==> {
                &&& r == Err::<Vote, Error>(Error::NotAMember)
                &&& final(self).members@ == old(self).members@
            },
            has_member(old(self).members@, caller) && has_member(old(self).members@, id) ==> {
                &&& final(self).members@ == after_vote(old(self).members@, id)
                &&& r == Ok::<Vote, Error>(Vote {
                    member: after_vote(old(self).members@, id)[first_index_of(
                        old(self).members@,
                        id,
                    )],
                })
            },
    {
        if !self.is_member(caller) {
            return Err(Error::NotAMember);
        }
        self.vote(id)
    }

    /// Queries the reputation of `id`. If `id` is not enrolled the call
    /// fails with `NotAMember`; if the first matching record has never
    /// received a vote it fails with `NoReputationYet`; otherwise the
    /// produced `MemberReputation` notification carries the record's current
    /// reputation. The registry is never changed.
    pub fn reputation(&mut self, id: AccountId) -> (r: Result<MemberReputation, Error>)
        ensures
            final(self).admin == old(self).admin,
            final(self).address == old(self).address,
            final(self).members@ == old(self).members@,
            !has_member(old(self).members@, id) ==> r == Err::<MemberReputation, Error>(
                Error::NotAMember,
            ),
            has_member(old(self).members@, id) && !query_succeeds(old(self).members@, id) ==> r
                == Err::<MemberReputation, Error>(Error::NoReputationYet),
            query_succeeds(old(self).members@, id) ==> r == Ok::<MemberReputation, Error>(
                (MemberReputation {
                    reputation: old(self).members@[first_index_of(old(self).members@, id)].reputation,
                }),
            ),
    {
        if !self.is_member(id) {
            return Err(Error::NotAMember);
        }
        let member: MemberInfo = self.get_member(id);
        let reputation = member.reputation;
        if reputation == 0 {
            return Err(Error::NoReputationYet);
        }
        Ok(MemberReputation { reputation })
    }

    /// Raises the reputation of the first record matching `id` by one and
    /// returns the updated record. The caller must have checked that `id`
    /// is enrolled.
    fn vote_member(&mut self, id: AccountId) -> (member: MemberInfo)
        requires
            has_member(old(self).members@, id),
            old(self).members@[first_index_of(old(self).members@, id)].reputation < u32::MAX,
        ensures
            final(self).admin == old(self).admin,
            final(self).address == old(self).address,
            final(self).members@ == after_vote(old(self).members@, id),
            member == after_vote(old(self).members@, id)[first_index_of(old(self).members@, id)],
            member.member_id == id,
            member.reputation > 0,
    {
        proof {
            lemma_first_index_of(old(self).members@, id);
        }
        let ghost fi: int = first_index_of(old(self).members@, id);
        let n = self.members.len();
        let mut idx: usize = 0;
        while self.members[idx].member_id != id
            invariant
                n == self.members@.len(),
                self.admin == old(self).admin,
                self.address == old(self).address,
                self.members@ == old(self).members@,
                0 <= fi < self.members@.len(),
                self.members@[fi].member_id == id,
                forall|j: int| 0 <= j < fi ==> self.members@[j].member_id != id,
                0 <= idx <= fi,
            decreases fi - idx,
        {
            assert(idx < fi);
            idx = idx + 1;
        }
        assert(idx == fi);
        let updated = MemberInfo {
            member_id: id,
            reputation: self.members[idx].reputation + 1,
        };
        self.members.set(idx, updated);
        assert(self.members@ =~= after_vote(old(self).members@, id));
        updated
    }

    /// Returns the first record matching `id`. The caller must have checked
    /// that `id` is enrolled. The registry is never changed.
    fn get_member(&mut self, id: AccountId) -> (member: MemberInfo)
        requires
            has_member(old(self).members@, id),
        ensures
            final(self).admin == old(self).admin,
            final(self).address == old(self).address,
            final(self).members@ == old(self).members@,
            member == old(self).members@[first_index_of(old(self).members@, id)],
    {
        proof {
            lemma_first_index_of(old(self).members@, id);
        }
        let ghost fi: int = first_index_of(old(self).members@, id);
        let n = self.members.len();
        let mut idx: usize = 0;
        while self.members[idx].member_id != id
            invariant
                n == self.members@.len(),
                self.admin == old(self).admin,
                self.address == old(self).address,
                self.members@ == old(self).members@,
                0 <= fi < self.members@.len(),
                self.members@[fi].member_id == id,
                forall|j: int| 0 <= j < fi ==> self.members@[j].member_id != id,
                0 <= idx <= fi,
            decreases fi - idx,
        {
            assert(idx < fi);
            idx = idx + 1;
        }
        assert(idx == fi);
        self.members[idx]
    }
}

} // verus!

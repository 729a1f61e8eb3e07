use organization::AccountId;
use organization::Error;
use organization::MemberInfo;
use organization::MemberReputation;
use organization::NewMember;
use organization::Organization;
use organization::Vote;

fn record(id: u128, reputation: u32) -> MemberInfo {
    MemberInfo { member_id: AccountId(id), reputation }
}

#[test]
fn construct_starts_empty() {
    let org = Organization::new(AccountId(1), AccountId(99));
    assert_eq!(org.admin, AccountId(1));
    assert_eq!(org.members.len(), 0);
}

#[test]
fn get_contract_address_returns_own_identity() {
    let org = Organization::new(AccountId(1), AccountId(99));
    assert_eq!(org.get_contract_address(), AccountId(99));
}

#[test]
fn enroll_one_by_non_admin_is_unauthorized() {
    let admin = AccountId(1);
    let intruder = AccountId(2);
    let mut org = Organization::new(admin, AccountId(99));
    let r = org.add_member(intruder, record(3, 0));
    assert_eq!(r, Err(Error::Unauthorized));
    assert_eq!(org.members.len(), 0);
}

#[test]
fn enroll_one_by_admin_appends_and_notifies() {
    let admin = AccountId(1);
    let mut org = Organization::new(admin, AccountId(99));
    let m = record(3, 0);
    let r = org.add_member(admin, m);
    assert_eq!(r, Ok(NewMember { member: m }));
    assert_eq!(org.members.len(), 1);
    assert_eq!(org.members[0], m);
}

#[test]
fn enroll_many_by_non_admin_is_unauthorized() {
    let admin = AccountId(1);
    let mut org = Organization::new(admin, AccountId(99));
    let r = org.add_members(AccountId(2), vec![record(3, 0), record(4, 0)]);
    assert_eq!(r, Err(Error::Unauthorized));
    assert_eq!(org.members.len(), 0);
}

#[test]
fn enroll_many_appends_in_order_and_notifies_in_order() {
    let admin = AccountId(1);
    let mut org = Organization::new(admin, AccountId(99));
    let m1 = record(10, 0);
    let m2 = record(11, 5);
    let m3 = record(12, 2);
    let r = org.add_members(admin, vec![m1, m2, m3]);
    let events = r.expect("the admin may enroll");
    assert_eq!(org.members, vec![m1, m2, m3]);
    assert_eq!(
        events,
        vec![
            NewMember { member: m1 },
            NewMember { member: m2 },
            NewMember { member: m3 },
        ]
    );
}

#[test]
fn vote_for_unknown_id_fails_and_changes_nothing() {
    let admin = AccountId(1);
    let mut org = Organization::new(admin, AccountId(99));
    org.add_member(admin, record(3, 0)).unwrap();
    let before = org.members.clone();
    let r = org.vote(AccountId(7));
    assert_eq!(r, Err(Error::NotAMember));
    assert_eq!(org.members, before);
}

#[test]
fn vote_increments_reputation_and_notifies_updated_record() {
    let admin = AccountId(1);
    let mut org = Organization::new(admin, AccountId(99));
    org.add_member(admin, record(3, 5)).unwrap();
    let r = org.vote(AccountId(3));
    assert_eq!(r, Ok(Vote { member: record(3, 6) }));
    assert_eq!(org.members[0], record(3, 6));
}

#[test]
fn repeated_votes_accumulate() {
    let admin = AccountId(1);
    let mut org = Organization::new(admin, AccountId(99));
    org.add_member(admin, record(3, 2)).unwrap();
    for _ in 0..4 {
        org.vote(AccountId(3)).unwrap();
    }
    assert_eq!(org.members[0], record(3, 6));
}

#[test]
fn vote_touches_only_the_first_match() {
    let admin = AccountId(1);
    let mut org = Organization::new(admin, AccountId(99));
    org.add_members(admin, vec![record(3, 0), record(4, 7), record(3, 9)])
        .unwrap();
    let r = org.vote(AccountId(3));
    assert_eq!(r, Ok(Vote { member: record(3, 1) }));
    assert_eq!(org.members, vec![record(3, 1), record(4, 7), record(3, 9)]);
}

#[test]
fn query_unknown_id_fails() {
    let admin = AccountId(1);
    let mut org = Organization::new(admin, AccountId(99));
    let r = org.reputation(AccountId(7));
    assert_eq!(r, Err(Error::NotAMember));
}

#[test]
fn query_with_zero_reputation_fails() {
    let admin = AccountId(1);
    let mut org = Organization::new(admin, AccountId(99));
    org.add_member(admin, record(3, 0)).unwrap();
    let r = org.reputation(AccountId(3));
    assert_eq!(r, Err(Error::NoReputationYet));
    assert_eq!(org.members[0], record(3, 0));
}

#[test]
fn query_after_vote_reports_current_value() {
    let admin = AccountId(1);
    let mut org = Organization::new(admin, AccountId(99));
    org.add_member(admin, record(3, 0)).unwrap();
    org.vote(AccountId(3)).unwrap();
    let r = org.reputation(AccountId(3));
    assert_eq!(r, Ok(MemberReputation { reputation: 1 }));
}

#[test]
fn enroll_vote_query_vote_scenario() {
    let admin = AccountId(1);
    let member_id = AccountId(42);
    let mut org = Organization::new(admin, AccountId(99));

    let enrolled = org.add_member(admin, record(42, 0));
    assert_eq!(enrolled, Ok(NewMember { member: record(42, 0) }));

    let first_vote = org.vote(member_id);
    assert_eq!(first_vote, Ok(Vote { member: record(42, 1) }));

    let queried = org.reputation(member_id);
    assert_eq!(queried, Ok(MemberReputation { reputation: 1 }));

    let second_vote = org.vote(member_id);
    assert_eq!(second_vote, Ok(Vote { member: record(42, 2) }));
}

#[test]
fn vote_on_empty_registry_fails() {
    let mut org = Organization::new(AccountId(1), AccountId(99));
    let r = org.vote(AccountId(5));
    assert_eq!(r, Err(Error::NotAMember));
    assert_eq!(org.members.len(), 0);
}

#[test]
fn enroll_many_with_empty_input_changes_nothing() {
    let admin = AccountId(1);
    let mut org = Organization::new(admin, AccountId(99));
    let r = org.add_members(admin, vec![]);
    assert_eq!(r, Ok(vec![]));
    assert_eq!(org.members.len(), 0);
}

#[test]
fn duplicate_enrollment_is_accepted() {
    let admin = AccountId(1);
    let mut org = Organization::new(admin, AccountId(99));
    org.add_member(admin, record(3, 0)).unwrap();
    let r = org.add_member(admin, record(3, 4));
    assert_eq!(r, Ok(NewMember { member: record(3, 4) }));
    assert_eq!(org.members, vec![record(3, 0), record(3, 4)]);
}

#[test]
fn query_resolves_ties_by_first_match() {
    let admin = AccountId(1);
    let mut org = Organization::new(admin, AccountId(99));
    org.add_members(admin, vec![record(3, 8), record(3, 2)]).unwrap();
    let r = org.reputation(AccountId(3));
    assert_eq!(r, Ok(MemberReputation { reputation: 8 }));
}

#[test]
fn member_vote_variant_accepts_enrolled_caller() {
    let admin = AccountId(1);
    let mut org = Organization::new(admin, AccountId(99));
    org.add_members(admin, vec![record(3, 0), record(4, 0)]).unwrap();
    let r = org.vote_as_member(AccountId(4), AccountId(3));
    assert_eq!(r, Ok(Vote { member: record(3, 1) }));
    assert_eq!(org.members, vec![record(3, 1), record(4, 0)]);
}

#[test]
fn member_vote_variant_refuses_unenrolled_caller() {
    let admin = AccountId(1);
    let mut org = Organization::new(admin, AccountId(99));
    org.add_member(admin, record(3, 0)).unwrap();
    let r = org.vote_as_member(AccountId(8), AccountId(3));
    assert_eq!(r, Err(Error::NotAMember));
    assert_eq!(org.members, vec![record(3, 0)]);
}

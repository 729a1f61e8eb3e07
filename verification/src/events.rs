use vstd::prelude::*;

use crate::member::MemberInfo;

verus! {

/// Notification produced when a member is enrolled, carrying the enrolled
/// record.
#[derive(Clone, Copy, PartialEq, Eq, Structural, Debug)]
pub struct NewMember {
    pub member: MemberInfo,
}

/// Notification produced when a vote is accepted, carrying the updated
/// record (with its post-increment reputation).
#[derive(Clone, Copy, PartialEq, Eq, Structural, Debug)]
pub struct Vote {
    pub member: MemberInfo,
}

/// Notification produced when a reputation query succeeds, carrying the
/// member's current reputation.
#[derive(Clone, Copy, PartialEq, Eq, Structural, Debug)]
pub struct MemberReputation {
    pub reputation: u32,
}

} // verus!

use vstd::prelude::*;

verus! {

/// An opaque account identity, as the host assigns it. The registry only
/// ever compares identities for equality.
#[derive(Clone, Copy, PartialEq, Eq, Structural, Debug)]
pub struct AccountId(pub u128);

/// A membership record: an identity, fixed when the record is enrolled, and
/// a reputation counter that only ever grows.
#[derive(Clone, Copy, PartialEq, Eq, Structural, Debug)]
pub struct MemberInfo {
    pub member_id: AccountId,
    pub reputation: u32,
}

} // verus!

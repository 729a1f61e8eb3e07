use vstd::prelude::*;

verus! {

/// Why a call was refused. Every failure aborts the whole call: the registry
/// is left exactly as it was and no notification is produced.
#[derive(Clone, Copy, PartialEq, Eq, Structural, Debug)]
pub enum Error {
    /// The caller of an enrollment operation is not the administrator.
    Unauthorized,
    /// The referenced identity is not enrolled in the registry.
    NotAMember,
    /// The referenced member is enrolled but has never received a vote, so
    /// its reputation cannot be queried yet.
    NoReputationYet,
}

} // verus!

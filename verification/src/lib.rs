//! An access-controlled membership registry with a simple reputation
//! mechanism: one privileged administrator enrolls members, any caller may
//! cast a vote that raises a member's reputation counter by one, and any
//! caller may query a member's current reputation.
//!
//! Every state-changing or querying call either fails with an [`Error`] and
//! leaves the registry untouched, or succeeds and returns the notification
//! it produced ([`NewMember`], [`Vote`], [`MemberReputation`]); the host that
//! embeds the registry is responsible for delivering notifications and for
//! resolving the caller's identity.

pub mod error;
pub mod events;
pub mod laws;
pub mod member;
pub mod registry;
pub mod store;

pub use error::Error;
pub use events::MemberReputation;
pub use events::NewMember;
pub use events::Vote;
pub use member::AccountId;
pub use member::MemberInfo;
pub use registry::Organization;

//! The reasons for which an operation is rejected.

use vstd::prelude::*;

verus! {

/// Why an operation was rejected. A rejected operation changes nothing.
#[derive(Clone, Copy, Debug, PartialEq, Eq, Structural)]
pub enum SanctosError {
    /// The acting owner is not one of the thread's two members.
    NotMember,
    /// The thread no longer accepts posts.
    ThreadClosed,
    /// The authorization was revoked by its owner.
    DelegationRevoked,
    /// The authorization's expiry instant has been reached.
    DelegationExpired,
    /// The authorization names another delegate.
    BadDelegate,
    /// The authorization belongs to another owner.
    BadOwner,
    /// The requested expiry is not in the future.
    BadExpiry,
}

} // verus!

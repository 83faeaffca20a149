//! The error taxonomy of the treasury core.
//!
//! Every failure is terminal for the current call: the core never retries on
//! its own, and a failed call leaves no partial state behind.

use vstd::prelude::*;

verus! {

/// Why a treasury operation was refused.
#[derive(Debug, PartialEq, Eq)]
pub enum TreasuryError {
    /// A governor record already exists for this deployment; initialization
    /// must be detectable, never a silent overwrite.
    AlreadyInitialized,
    /// No valid authority derivation exists for the given seed. Surfaced to
    /// the caller rather than retried with a different seed, since a different
    /// seed would change the derived address.
    AddressSpaceExhausted,
    /// The proposal's one-shot execution latch is already set.
    AlreadyExecuted,
    /// The proposal has not accumulated enough authorization points.
    InsufficientAuthorization,
    /// The external target rejected the invocation; the reason it reported is
    /// carried verbatim. The proposal is left untouched so it can be retried.
    InvocationFailed(String),
    /// The supplied treasury authority is not the one derived from the seed:
    /// a configuration error, never silently substituted.
    AuthorityMismatch,
}

} // verus!

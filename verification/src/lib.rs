//! Governance-gated treasury core.
//!
//! A treasury holds funds under collective control and releases them only
//! through a governance path: members accumulate points, proposals describing
//! an external action are queued, points are attached to a proposal until it
//! crosses an execution threshold, and only then may the treasury's delegated
//! signing authority perform the described action, exactly once.
//!
//! The crate verifies the authorization-and-execution core: how a proposal is
//! represented, how authorization accrues and is checked, and how the final
//! invocation is reconstructed with the delegated authority substituted as a
//! signer. Account storage, transport, and the actual dispatch of the
//! invocation are left to the surrounding runtime.

pub mod error;
pub mod identity;
pub mod governor;
pub mod transaction;
pub mod execution;

pub use error::TreasuryError;
pub use identity::Identity;
pub use governor::Governor;
pub use governor::create_governor;
pub use governor::create_transaction;
pub use transaction::Transaction;
pub use transaction::TransactionAccount;
pub use transaction::add_points;
pub use transaction::is_executable;
pub use execution::DelegatedAuthority;
pub use execution::Invocation;
pub use execution::derive_authority;
pub use execution::execute_transaction;
pub use execution::complete_execution;

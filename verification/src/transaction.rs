//! Proposals ("transactions") and their authorization gate.
//!
//! A transaction is a queued description of an external action: a target
//! program, an ordered operand list, and an opaque payload, together with the
//! authorization points it has accumulated and a one-shot execution latch.

use vstd::prelude::*;
use crate::error::TreasuryError;
use crate::identity::Identity;

verus! {

/// Authorization points granted to a fresh transaction, reflecting the
/// implicit endorsement of its proposer. Non-zero, below the threshold.
pub const CREATION_POINTS: u64 = 1;

/// The authorization weight a transaction must reach before it may execute.
pub const EXECUTION_THRESHOLD: u64 = 4;

/// One operand of the queued external action.
#[derive(Debug, PartialEq, Eq)]
pub struct TransactionAccount {
    /// The account the action operates on.
    pub pubkey: Identity,
    /// Whether the account must sign the action.
    pub is_signer: bool,
    /// Whether the action may write to the account.
    pub is_writable: bool,
}

/// The mathematical value of a [`TransactionAccount`].
#[verifier::ext_equal]
pub ghost struct AccountView {
    pub pubkey: Seq<u8>,
    pub is_signer: bool,
    pub is_writable: bool,
}

impl View for TransactionAccount {
    type V = AccountView;

    open spec fn view(&self) -> AccountView {
        AccountView { pubkey: self.pubkey@, is_signer: self.is_signer, is_writable: self.is_writable }
    }
}

impl TransactionAccount {
    /// Builds an operand entry.
    pub fn new(pubkey: Identity, is_signer: bool, is_writable: bool) -> (r: TransactionAccount)
        ensures
            r@ == (AccountView { pubkey: pubkey@, is_signer, is_writable }),
    {
        TransactionAccount { pubkey, is_signer, is_writable }
    }

    /// An independent copy of the operand entry.
    pub fn duplicate(&self) -> (r: TransactionAccount)
        ensures
            r@ == self@,
    {
        TransactionAccount {
            pubkey: self.pubkey.duplicate(),
            is_signer: self.is_signer,
            is_writable: self.is_writable,
        }
    }
}

/// The values of a sequence of operand entries.
pub open spec fn account_views(s: Seq<TransactionAccount>) -> Seq<AccountView> {
    Seq::new(s.len(), |i: int| s[i]@)
}

/// A queued proposal for an external action, with its authorization state.
#[derive(Debug, PartialEq, Eq)]
pub struct Transaction {
    /// The governor this transaction belongs to (relation only, no ownership).
    pub governor: Identity,
    /// The external program the action is addressed to.
    pub program_id: Identity,
    /// The operands of the action, in the exact order given at creation.
    pub accounts: Vec<TransactionAccount>,
    /// Opaque payload forwarded verbatim to the external action.
    pub data: Vec<u8>,
    /// Accumulated authorization weight.
    pub points: u64,
    /// One-shot latch: set exactly once, at successful execution.
    pub did_execute: bool,
    /// The governor's transaction count at creation; identification only.
    pub index: u32,
}

/// The mathematical value of a [`Transaction`].
#[verifier::ext_equal]
pub ghost struct TransactionView {
    pub governor: Seq<u8>,
    pub program_id: Seq<u8>,
    pub accounts: Seq<AccountView>,
    pub data: Seq<u8>,
    pub points: int,
    pub did_execute: bool,
    pub index: int,
}

impl View for Transaction {
    type V = TransactionView;

    open spec fn view(&self) -> TransactionView {
        TransactionView {
            governor: self.governor@,
            program_id: self.program_id@,
            accounts: account_views(self.accounts@),
            data: self.data@,
            points: self.points as int,
            did_execute: self.did_execute,
            index: self.index as int,
        }
    }
}

/// Whether a transaction may execute now: enough authorization, latch unset.
pub fn is_executable(tx: &Transaction) -> (r: bool)
    ensures
        r == (tx.points >= EXECUTION_THRESHOLD && !tx.did_execute),
{
    tx.points >= EXECUTION_THRESHOLD && !tx.did_execute
}

/// Accrues authorization weight on a transaction.
///
/// Deciding how much weight to grant, and to whom, is the collaborating
/// runtime's business. Here the one rule is that an executed transaction's
/// points are frozen: accrual on it is rejected and leaves the record
/// untouched.
pub fn add_points(tx: &mut Transaction, weight: u64) -> (r: Result<(), TreasuryError>)
    requires
        old(tx).points + weight <= u64::MAX,
    ensures
        old(tx).did_execute ==> r == Err::<(), TreasuryError>(TreasuryError::AlreadyExecuted)
            && *final(tx) == *old(tx),
        !old(tx).did_execute ==> r == Ok::<(), TreasuryError>(())
            && final(tx).points == old(tx).points + weight
            && final(tx).governor == old(tx).governor
            && final(tx).program_id == old(tx).program_id
            && final(tx).accounts == old(tx).accounts
            && final(tx).data == old(tx).data
            && final(tx).did_execute == old(tx).did_execute
            && final(tx).index == old(tx).index,
{
    if tx.did_execute {
        return Err(TreasuryError::AlreadyExecuted);
    }
    tx.points = tx.points + weight;
    Ok(())
}

} // verus!

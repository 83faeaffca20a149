//! The governor ledger: one record per deployment.
//!
//! The governor tracks the participant count, the outstanding point supply,
//! and a monotonically increasing transaction counter that is the source of
//! every new transaction's index. Index allocation and transaction creation
//! form one indivisible step, so concurrent creations serialize on the
//! counter: the surrounding runtime runs each call as an isolated unit of
//! work, and this module's contracts describe one such unit.

use vstd::prelude::*;
use crate::error::TreasuryError;
use crate::identity::Identity;
use crate::transaction::CREATION_POINTS;
use crate::transaction::Transaction;
use crate::transaction::TransactionAccount;

verus! {

/// The point supply a deployment starts with.
pub const GENESIS_POINT_SUPPLY: u64 = 10;

/// The per-deployment governance ledger.
#[derive(Debug, PartialEq, Eq)]
pub struct Governor {
    /// Number of distinct members ever recognized.
    pub participants: u64,
    /// Total points in circulation.
    pub points_supply: u64,
    /// Monotonically increasing transaction counter; never reused.
    pub transactions: u32,
    /// Witness under which the governor record's own address was derived.
    pub bump: u8,
}

/// The mathematical value of a [`Governor`].
#[verifier::ext_equal]
pub ghost struct GovernorView {
    pub participants: int,
    pub points_supply: int,
    pub transactions: int,
    pub bump: int,
}

impl View for Governor {
    type V = GovernorView;

    open spec fn view(&self) -> GovernorView {
        GovernorView {
            participants: self.participants as int,
            points_supply: self.points_supply as int,
            transactions: self.transactions as int,
            bump: self.bump as int,
        }
    }
}

/// The index a creation against governor state `g` hands out.
pub open spec fn next_index(g: GovernorView) -> int {
    g.transactions
}

/// The governor state after one transaction creation.
pub open spec fn governor_after_create(g: GovernorView) -> GovernorView {
    GovernorView { transactions: g.transactions + 1, ..g }
}

/// Creates the singleton governor record of a deployment.
///
/// Whether a record already exists is known only to the storage substrate;
/// the caller reports it, and a second initialization is refused rather than
/// silently overwritten.
pub fn create_governor(already_initialized: bool, governor_bump: u8) -> (r: Result<
    Governor,
    TreasuryError,
>)
    ensures
        already_initialized ==> r == Err::<Governor, TreasuryError>(
            TreasuryError::AlreadyInitialized,
        ),
        !already_initialized ==> (r matches Ok(g) && g.participants == 0
            && g.points_supply == GENESIS_POINT_SUPPLY && g.transactions == 0
            && g.bump == governor_bump),
{
    if already_initialized {
        return Err(TreasuryError::AlreadyInitialized);
    }
    Ok(Governor { participants: 0, points_supply: GENESIS_POINT_SUPPLY, transactions: 0, bump: governor_bump })
}

/// Creates a transaction: allocates the next index from the governor and
/// builds the record with the creation-seed authorization points and an unset
/// execution latch. The operand order and the payload bytes are preserved
/// exactly as supplied.
pub fn create_transaction(
    governor: &mut Governor,
    governor_key: &Identity,
    pid: Identity,
    accs: Vec<TransactionAccount>,
    data: Vec<u8>,
) -> (tx: Transaction)
    requires
        old(governor).transactions < u32::MAX,
    ensures
        final(governor)@ == governor_after_create(old(governor)@),
        tx.index == next_index(old(governor)@),
        tx.governor@ == governor_key@,
        tx.program_id == pid,
        tx.accounts == accs,
        tx.data == data,
        tx.points == CREATION_POINTS,
        tx.did_execute == false,
{
    let index = governor.transactions;
    governor.transactions = governor.transactions + 1;
    proof {
        assert(final(governor)@ =~= governor_after_create(old(governor)@));
    }
    Transaction {
        governor: governor_key.duplicate(),
        program_id: pid,
        accounts: accs,
        data,
        points: CREATION_POINTS,
        did_execute: false,
        index,
    }
}

/// The indices handed out by `n` consecutive creations starting from
/// governor state `g`.
pub open spec fn indices_of_run(g: GovernorView, n: nat) -> Seq<int>
    decreases n,
{
    if n == 0 {
        Seq::empty()
    } else {
        seq![next_index(g)] + indices_of_run(governor_after_create(g), (n - 1) as nat)
    }
}

/// Index allocation never repeats and leaves no gaps: a run of `n` creations
/// from governor state `g` hands out exactly the indices
/// `g.transactions, g.transactions + 1, ..., g.transactions + n - 1`,
/// in order and all distinct.
pub proof fn lemma_run_indices_consecutive(g: GovernorView, n: nat)
    ensures
        indices_of_run(g, n).len() == n,
        forall|i: int| 0 <= i < n ==> indices_of_run(g, n)[i] == g.transactions + i,
        forall|i: int, j: int|
            0 <= i < n && 0 <= j < n && i != j ==> indices_of_run(g, n)[i] != indices_of_run(
                g,
                n,
            )[j],
    decreases n,
{
    if n > 0 {
        lemma_run_indices_consecutive(governor_after_create(g), (n - 1) as nat);
    }
}

/// Against a fresh governor, the indices handed out by `n` creations are
/// exactly the set `{0, 1, ..., n - 1}`: no duplicates and no gaps.
pub proof fn lemma_fresh_run_indices_exact(g: GovernorView, n: nat)
    requires
        g.transactions == 0,
    ensures
        indices_of_run(g, n).len() == n,
        forall|i: int| 0 <= i < n ==> indices_of_run(g, n)[i] == i,
        forall|i: int, j: int|
            0 <= i < n && 0 <= j < n && i != j ==> indices_of_run(g, n)[i] != indices_of_run(
                g,
                n,
            )[j],
        forall|v: int| 0 <= v < n ==> indices_of_run(g, n).contains(v),
        forall|v: int| indices_of_run(g, n).contains(v) ==> 0 <= v < n,
{
    lemma_run_indices_consecutive(g, n);
    assert forall|v: int| 0 <= v < n implies indices_of_run(g, n).contains(v) by {
        assert(indices_of_run(g, n)[v] == v);
    }
}

} // verus!

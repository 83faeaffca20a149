//! The execution engine and the authority deriver.
//!
//! The engine consumes a sufficiently authorized, not-yet-executed
//! transaction and reconstructs the generic invocation it describes: the
//! target program, the ordered operand list with the delegated authority
//! forced to be a signer wherever it appears, and the payload verbatim.
//! Dispatching the invocation is the runtime's job; the engine decides, and
//! the latch is flipped only once the runtime reports success, so the check,
//! the dispatch and the flip form one unit of work that commits or rolls
//! back as a whole.

use vstd::prelude::*;
use crate::error::TreasuryError;
use crate::identity::Identity;
use crate::identity::copy_bytes;
use crate::transaction::AccountView;
use crate::transaction::EXECUTION_THRESHOLD;
use crate::transaction::Transaction;
use crate::transaction::TransactionAccount;
use crate::transaction::TransactionView;
use crate::transaction::account_views;
use anchor_lang::solana_program::pubkey::Pubkey;

verus! {

/// The address and bump witness that the external derivation primitive
/// computes from a seed and a deployment identity, or `None` in the
/// astronomically rare case that no valid derivation exists. The result is a
/// pure function of the two inputs.
pub uninterp spec fn derived_authority_of(seed: Seq<u8>, deployment: Seq<u8>) -> Option<
    (Seq<u8>, u8),
>;

/// Relies on `Pubkey::try_find_program_address` (through `anchor_lang`): the
/// derived address and its bump witness depend on the seed and the deployment
/// identity alone, a returned address is 32 bytes long, and `None` comes back
/// exactly when no valid derivation exists for the inputs (including a
/// deployment identity that is not a 32-byte address).
#[verifier::external_body]
fn find_derived_address(seed: &Vec<u8>, deployment: &Identity) -> (r: Option<(Identity, u8)>)
    ensures
        r is Some <==> derived_authority_of(seed@, deployment@) is Some,
        r matches Some(p) ==> derived_authority_of(seed@, deployment@) == Some((p.0@, p.1))
            && p.0@.len() == 32,
{
    let program = match Pubkey::try_from(deployment.bytes.as_slice()) {
        Ok(p) => p,
        Err(_) => return None,
    };
    match Pubkey::try_find_program_address(&[seed.as_slice()], &program) {
        Some((address, bump)) => Some((Identity { bytes: address.to_bytes().to_vec() }, bump)),
        None => None,
    }
}

/// The treasury's delegated signing capability: a deterministically derived
/// address together with the seed and bump witness that let the deployment —
/// and only the deployment — sign as that address. Recomputed on demand,
/// never persisted; it carries no transferable secret.
#[derive(Debug, PartialEq, Eq)]
pub struct DelegatedAuthority {
    /// The derived address the deployment may sign as.
    pub address: Identity,
    /// The seed the address was derived from.
    pub seed: Vec<u8>,
    /// The derivation witness handed to the signing runtime.
    pub bump: u8,
}

/// Derives the treasury's signing authority from a seed and the deployment's
/// own identity. Same inputs, same address. When no valid derivation exists
/// the failure is surfaced, never retried with a different seed: a different
/// seed would change the address and break every transaction referencing it.
pub fn derive_authority(seed: Vec<u8>, deployment: &Identity) -> (r: Result<
    DelegatedAuthority,
    TreasuryError,
>)
    ensures
        derived_authority_of(seed@, deployment@) is None ==> r == Err::<
            DelegatedAuthority,
            TreasuryError,
        >(TreasuryError::AddressSpaceExhausted),
        derived_authority_of(seed@, deployment@) matches Some(p) ==> (r matches Ok(a)
            && a.address@ == p.0 && a.bump == p.1 && a.seed@ == seed@ && a.address@.len() == 32),
{
    match find_derived_address(&seed, deployment) {
        Some((address, bump)) => Ok(DelegatedAuthority { address, seed, bump }),
        None => Err(TreasuryError::AddressSpaceExhausted),
    }
}

/// A fully reconstructed external invocation: target, operands, payload.
#[derive(Debug, PartialEq, Eq)]
pub struct Invocation {
    /// The program the invocation is dispatched to.
    pub program_id: Identity,
    /// The operand accounts, in the transaction's order.
    pub accounts: Vec<TransactionAccount>,
    /// The payload bytes, exactly as stored.
    pub data: Vec<u8>,
}

/// The mathematical value of an [`Invocation`].
#[verifier::ext_equal]
pub ghost struct InvocationView {
    pub program_id: Seq<u8>,
    pub accounts: Seq<AccountView>,
    pub data: Seq<u8>,
}

impl View for Invocation {
    type V = InvocationView;

    open spec fn view(&self) -> InvocationView {
        InvocationView {
            program_id: self.program_id@,
            accounts: account_views(self.accounts@),
            data: self.data@,
        }
    }
}

impl Invocation {
    /// Reconstructs the invocation a transaction describes, flags and order
    /// exactly as stored; signer substitution is a separate, auditable pass.
    pub fn from_transaction(tx: &Transaction) -> (r: Invocation)
        ensures
            r@.program_id == tx@.program_id,
            r@.accounts == tx@.accounts,
            r@.data == tx@.data,
    {
        let mut accounts: Vec<TransactionAccount> = Vec::new();
        let n = tx.accounts.len();
        let mut i: usize = 0;
        while i < n
            invariant
                n == tx.accounts@.len(),
                i <= n,
                accounts@.len() == i,
                forall|j: int| 0 <= j < i ==> accounts@[j]@ == tx.accounts@[j]@,
            decreases n - i,
        {
            accounts.push(tx.accounts[i].duplicate());
            i = i + 1;
        }
        proof {
            assert(account_views(accounts@) =~= account_views(tx.accounts@));
        }
        Invocation {
            program_id: tx.program_id.duplicate(),
            accounts,
            data: copy_bytes(&tx.data),
        }
    }
}

/// One operand after signer substitution: an operand naming the authority's
/// address is forced to be a signer; any other operand passes through.
pub open spec fn substituted_account(a: AccountView, authority: Seq<u8>) -> AccountView {
    if a.pubkey == authority {
        AccountView { is_signer: true, ..a }
    } else {
        a
    }
}

/// An operand list after signer substitution, order preserved.
pub open spec fn substituted_accounts(s: Seq<AccountView>, authority: Seq<u8>) -> Seq<AccountView> {
    Seq::new(s.len(), |i: int| substituted_account(s[i], authority))
}

/// The invocation the engine dispatches for a transaction under a given
/// authority address.
pub open spec fn invocation_of(tx: TransactionView, authority: Seq<u8>) -> InvocationView {
    InvocationView {
        program_id: tx.program_id,
        accounts: substituted_accounts(tx.accounts, authority),
        data: tx.data,
    }
}

/// The signer-substitution pass: forces `is_signer` on every operand whose
/// identity equals the authority's address and leaves every other operand
/// untouched. Kept as its own scan so the security-relevant transformation
/// can be exercised independently of the rest of the execution path.
pub fn substitute_signers(accounts: &Vec<TransactionAccount>, authority: &Identity) -> (r: Vec<
    TransactionAccount,
>)
    ensures
        account_views(r@) == substituted_accounts(account_views(accounts@), authority@),
{
    let mut r: Vec<TransactionAccount> = Vec::new();
    let n = accounts.len();
    let mut i: usize = 0;
    while i < n
        invariant
            n == accounts@.len(),
            i <= n,
            r@.len() == i,
            forall|j: int| 0 <= j < i ==> r@[j]@ == substituted_account(accounts@[j]@, authority@),
        decreases n - i,
    {
        let mut acc = accounts[i].duplicate();
        if acc.pubkey.equals(authority) {
            acc.is_signer = true;
        }
        r.push(acc);
        i = i + 1;
    }
    proof {
        assert(account_views(r@) =~= substituted_accounts(account_views(accounts@), authority@));
    }
    r
}

/// What the execution engine decides for a transaction, given the outcome of
/// authority derivation and the treasury address the caller presented, in the
/// order the preconditions are checked: derivation, authority match, the
/// one-shot latch, then the authorization threshold.
pub open spec fn execution_decision(
    tx: TransactionView,
    derived: Option<(Seq<u8>, u8)>,
    treasury: Seq<u8>,
) -> Result<InvocationView, TreasuryError> {
    match derived {
        None => Err(TreasuryError::AddressSpaceExhausted),
        Some(p) => if p.0 != treasury {
            Err(TreasuryError::AuthorityMismatch)
        } else if tx.did_execute {
            Err(TreasuryError::AlreadyExecuted)
        } else if tx.points < EXECUTION_THRESHOLD {
            Err(TreasuryError::InsufficientAuthorization)
        } else {
            Ok(invocation_of(tx, treasury))
        },
    }
}

/// Checks a transaction's execution preconditions and reconstructs the
/// invocation to dispatch, signed by the authority recomputed from the seed.
///
/// The transaction itself is only read: nothing is mutated until the runtime
/// reports the dispatch outcome to [`complete_execution`], so a refusal here
/// leaves no trace. On success the caller receives the invocation together
/// with the authority whose witness signs it; any extra operand accounts a
/// dispatch needs only at execution time are the runtime's to supply and are
/// not part of the governed description.
pub fn execute_transaction(
    tx: &Transaction,
    seed: Vec<u8>,
    treasury: &Identity,
    deployment: &Identity,
) -> (r: Result<(Invocation, DelegatedAuthority), TreasuryError>)
    ensures
        r is Ok <==> execution_decision(tx@, derived_authority_of(seed@, deployment@), treasury@)
            is Ok,
        r matches Ok(p) ==> execution_decision(
            tx@,
            derived_authority_of(seed@, deployment@),
            treasury@,
        ) == Ok::<InvocationView, TreasuryError>(p.0@) && p.1.address@ == treasury@
            && p.1.seed@ == seed@ && derived_authority_of(seed@, deployment@) == Some(
            (p.1.address@, p.1.bump),
        ),
        r matches Err(e) ==> execution_decision(
            tx@,
            derived_authority_of(seed@, deployment@),
            treasury@,
        ) == Err::<InvocationView, TreasuryError>(e),
{
    let authority = match derive_authority(seed, deployment) {
        Ok(a) => a,
        Err(e) => {
            return Err(e);
        },
    };
    if !authority.address.equals(treasury) {
        return Err(TreasuryError::AuthorityMismatch);
    }
    if tx.did_execute {
        return Err(TreasuryError::AlreadyExecuted);
    }
    if tx.points < EXECUTION_THRESHOLD {
        return Err(TreasuryError::InsufficientAuthorization);
    }
    let mut inv = Invocation::from_transaction(tx);
    let substituted = substitute_signers(&inv.accounts, treasury);
    inv.accounts = substituted;
    proof {
        assert(inv@ =~= invocation_of(tx@, treasury@));
    }
    Ok((inv, authority))
}

/// A transaction after its one-shot latch is sealed.
pub open spec fn transaction_completed(tx: TransactionView) -> TransactionView {
    TransactionView { did_execute: true, ..tx }
}

/// Commits the outcome the runtime reports for a dispatched invocation.
///
/// Success seals the one-shot latch; everything else about the record is
/// frozen from then on. A rejected dispatch leaves the transaction exactly as
/// it was — points and latch untouched — so it can be retried once the
/// external condition is fixed, and surfaces the target's reason verbatim.
pub fn complete_execution(tx: &mut Transaction, outcome: Result<(), String>) -> (r: Result<
    (),
    TreasuryError,
>)
    requires
        !old(tx).did_execute,
    ensures
        outcome is Ok ==> r == Ok::<(), TreasuryError>(()) && final(tx)@ == transaction_completed(
            old(tx)@,
        ),
        outcome matches Err(reason) ==> r == Err::<(), TreasuryError>(
            TreasuryError::InvocationFailed(reason),
        ) && *final(tx) == *old(tx),
{
    match outcome {
        Ok(()) => {
            tx.did_execute = true;
            proof {
                assert(tx@ =~= transaction_completed(old(tx)@));
            }
            Ok(())
        },
        Err(reason) => Err(TreasuryError::InvocationFailed(reason)),
    }
}

/// Signer substitution, stated pointwise: the account-reference list handed
/// to the external invocation has `is_signer` forced to `true` on every entry
/// whose identity equals the derived authority's address, regardless of the
/// stored flag, and every other entry's flags pass through unchanged;
/// identities, writability and order are always preserved.
pub proof fn lemma_signer_substitution(s: Seq<AccountView>, authority: Seq<u8>)
    ensures
        substituted_accounts(s, authority).len() == s.len(),
        forall|i: int|
            #![trigger substituted_accounts(s, authority)[i]]
            0 <= i < s.len() ==> substituted_accounts(s, authority)[i].pubkey == s[i].pubkey
                && substituted_accounts(s, authority)[i].is_writable == s[i].is_writable && (s[i].pubkey
                == authority ==> substituted_accounts(s, authority)[i].is_signer == true) && (s[i].pubkey
                != authority ==> substituted_accounts(s, authority)[i].is_signer == s[i].is_signer),
{
}

/// A transaction below the execution threshold never executes: no decision on
/// it produces an invocation, and under a matching authority with the latch
/// unset the refusal is exactly `InsufficientAuthorization`. The engine reads
/// such a transaction without mutating it, so neither the latch nor the
/// stored record changes on this path.
pub proof fn lemma_insufficient_authorization(
    tx: TransactionView,
    derived: Option<(Seq<u8>, u8)>,
    treasury: Seq<u8>,
)
    requires
        tx.points < EXECUTION_THRESHOLD,
    ensures
        !(execution_decision(tx, derived, treasury) is Ok),
        derived matches Some(p) ==> (p.0 == treasury && !tx.did_execute ==> execution_decision(
            tx,
            derived,
            treasury,
        ) == Err::<InvocationView, TreasuryError>(TreasuryError::InsufficientAuthorization)),
{
}

/// Execution is one-shot: a decision produces an invocation only while the
/// latch is unset, and once a transaction is completed every further attempt
/// under a matching authority is refused as already executed. Hence the
/// described invocation is dispatched at most once.
pub proof fn lemma_execute_at_most_once(
    tx: TransactionView,
    derived: Option<(Seq<u8>, u8)>,
    treasury: Seq<u8>,
)
    ensures
        execution_decision(tx, derived, treasury) is Ok ==> !tx.did_execute,
        !(execution_decision(transaction_completed(tx), derived, treasury) is Ok),
        derived matches Some(p) ==> (p.0 == treasury ==> execution_decision(
            transaction_completed(tx),
            derived,
            treasury,
        ) == Err::<InvocationView, TreasuryError>(TreasuryError::AlreadyExecuted)),
{
}

} // verus!

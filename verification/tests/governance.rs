use treasury::TreasuryError;
use treasury::Identity;
use treasury::Governor;
use treasury::Transaction;
use treasury::TransactionAccount;
use treasury::DelegatedAuthority;
use treasury::create_governor;
use treasury::create_transaction;
use treasury::add_points;
use treasury::is_executable;
use treasury::derive_authority;
use treasury::execute_transaction;
use treasury::complete_execution;
use treasury::governor::GENESIS_POINT_SUPPLY;
use treasury::transaction::CREATION_POINTS;
use treasury::transaction::EXECUTION_THRESHOLD;

fn identity_of(byte: u8) -> Identity {
    Identity::new(vec![byte; 32])
}

fn fresh_governor() -> Governor {
    create_governor(false, 250).expect("fresh deployment must initialize")
}

fn treasury_seed() -> Vec<u8> {
    b"treasury".to_vec()
}

fn deployment() -> Identity {
    identity_of(7)
}

fn authority() -> DelegatedAuthority {
    derive_authority(treasury_seed(), &deployment()).expect("derivation must exist")
}

fn proposal(governor: &mut Governor, accounts: Vec<TransactionAccount>) -> Transaction {
    create_transaction(
        governor,
        &identity_of(1),
        identity_of(2),
        accounts,
        vec![1, 2, 3],
    )
}

fn raise_to_threshold(tx: &mut Transaction) {
    add_points(tx, EXECUTION_THRESHOLD - CREATION_POINTS).expect("accrual on live proposal");
    assert_eq!(tx.points, EXECUTION_THRESHOLD);
}

#[test]
fn governor_initialization() {
    let g = create_governor(false, 5).expect("fresh deployment must initialize");
    assert_eq!(g.participants, 0);
    assert_eq!(g.points_supply, GENESIS_POINT_SUPPLY);
    assert_eq!(g.points_supply, 10);
    assert_eq!(g.transactions, 0);
    assert_eq!(g.bump, 5);
}

#[test]
fn governor_double_initialization_rejected() {
    assert_eq!(
        create_governor(true, 5),
        Err(TreasuryError::AlreadyInitialized)
    );
}

#[test]
fn transaction_creation_assigns_consecutive_indices() {
    let mut g = fresh_governor();
    let t0 = proposal(&mut g, vec![]);
    let t1 = proposal(&mut g, vec![]);
    let t2 = proposal(&mut g, vec![]);
    assert_eq!(t0.index, 0);
    assert_eq!(t1.index, 1);
    assert_eq!(t2.index, 2);
    assert_eq!(g.transactions, 3);
}

#[test]
fn transaction_creation_preserves_operands_and_payload() {
    let mut g = fresh_governor();
    let accounts = vec![
        TransactionAccount::new(identity_of(10), false, true),
        TransactionAccount::new(identity_of(11), true, false),
    ];
    let tx = proposal(&mut g, accounts);
    assert_eq!(tx.governor, identity_of(1));
    assert_eq!(tx.program_id, identity_of(2));
    assert_eq!(tx.accounts.len(), 2);
    assert_eq!(tx.accounts[0], TransactionAccount::new(identity_of(10), false, true));
    assert_eq!(tx.accounts[1], TransactionAccount::new(identity_of(11), true, false));
    assert_eq!(tx.data, vec![1, 2, 3]);
    assert_eq!(tx.points, CREATION_POINTS);
    assert!(!tx.did_execute);
}

#[test]
fn is_executable_gate() {
    let mut g = fresh_governor();
    let mut tx = proposal(&mut g, vec![]);
    assert!(!is_executable(&tx));
    raise_to_threshold(&mut tx);
    assert!(is_executable(&tx));
    complete_execution(&mut tx, Ok(())).expect("commit of a reported success");
    assert!(!is_executable(&tx));
}

#[test]
fn add_points_accrues() {
    let mut g = fresh_governor();
    let mut tx = proposal(&mut g, vec![]);
    assert_eq!(add_points(&mut tx, 2), Ok(()));
    assert_eq!(tx.points, CREATION_POINTS + 2);
}

#[test]
fn add_points_rejected_after_execution() {
    let mut g = fresh_governor();
    let mut tx = proposal(&mut g, vec![]);
    raise_to_threshold(&mut tx);
    complete_execution(&mut tx, Ok(())).expect("commit of a reported success");
    let frozen = tx.points;
    assert_eq!(add_points(&mut tx, 5), Err(TreasuryError::AlreadyExecuted));
    assert_eq!(tx.points, frozen);
    assert!(tx.did_execute);
}

#[test]
fn execute_below_threshold_is_insufficient() {
    let auth = authority();
    let mut g = fresh_governor();
    let tx = proposal(&mut g, vec![]);
    assert!(tx.points < EXECUTION_THRESHOLD);
    let r = execute_transaction(&tx, treasury_seed(), &auth.address, &deployment());
    assert_eq!(r, Err(TreasuryError::InsufficientAuthorization));
    assert!(!tx.did_execute);
}

#[test]
fn execute_substitutes_authority_signer() {
    let auth = authority();
    let mut g = fresh_governor();
    let accounts = vec![
        TransactionAccount::new(auth.address.duplicate(), false, true),
        TransactionAccount::new(identity_of(11), true, false),
    ];
    let mut tx = proposal(&mut g, accounts);
    raise_to_threshold(&mut tx);
    let (inv, signer) = execute_transaction(&tx, treasury_seed(), &auth.address, &deployment())
        .expect("authorized proposal must execute");
    assert_eq!(inv.program_id, identity_of(2));
    assert_eq!(inv.data, vec![1, 2, 3]);
    assert_eq!(inv.accounts.len(), 2);
    assert_eq!(
        inv.accounts[0],
        TransactionAccount::new(auth.address.duplicate(), true, true)
    );
    assert_eq!(
        inv.accounts[1],
        TransactionAccount::new(identity_of(11), true, false)
    );
    assert_eq!(signer.address, auth.address);
    assert_eq!(signer.bump, auth.bump);
    assert_eq!(signer.seed, treasury_seed());
}

#[test]
fn execute_round_trip_without_authority_operand() {
    let auth = authority();
    let mut g = fresh_governor();
    let accounts = vec![
        TransactionAccount::new(identity_of(10), false, true),
        TransactionAccount::new(identity_of(11), true, false),
    ];
    let mut tx = proposal(&mut g, accounts);
    raise_to_threshold(&mut tx);
    let (inv, _) = execute_transaction(&tx, treasury_seed(), &auth.address, &deployment())
        .expect("authorized proposal must execute");
    assert_eq!(inv.accounts[0], TransactionAccount::new(identity_of(10), false, true));
    assert_eq!(inv.accounts[1], TransactionAccount::new(identity_of(11), true, false));
}

#[test]
fn execute_with_wrong_treasury_is_a_mismatch() {
    let mut g = fresh_governor();
    let mut tx = proposal(&mut g, vec![]);
    raise_to_threshold(&mut tx);
    let wrong = identity_of(42);
    let r = execute_transaction(&tx, treasury_seed(), &wrong, &deployment());
    assert_eq!(r, Err(TreasuryError::AuthorityMismatch));
}

#[test]
fn execute_twice_is_refused() {
    let auth = authority();
    let mut g = fresh_governor();
    let mut tx = proposal(&mut g, vec![]);
    raise_to_threshold(&mut tx);
    execute_transaction(&tx, treasury_seed(), &auth.address, &deployment())
        .expect("first execution of an authorized proposal");
    complete_execution(&mut tx, Ok(())).expect("commit of a reported success");
    assert!(tx.did_execute);
    let again = execute_transaction(&tx, treasury_seed(), &auth.address, &deployment());
    assert_eq!(again, Err(TreasuryError::AlreadyExecuted));
}

#[test]
fn complete_execution_failure_leaves_transaction_retryable() {
    let auth = authority();
    let mut g = fresh_governor();
    let mut tx = proposal(&mut g, vec![]);
    raise_to_threshold(&mut tx);
    let r = complete_execution(&mut tx, Err(String::from("target refused")));
    assert_eq!(
        r,
        Err(TreasuryError::InvocationFailed(String::from("target refused")))
    );
    assert!(!tx.did_execute);
    assert_eq!(tx.points, EXECUTION_THRESHOLD);
    execute_transaction(&tx, treasury_seed(), &auth.address, &deployment())
        .expect("a failed dispatch must leave the proposal executable");
}

#[test]
fn derive_authority_is_deterministic() {
    let a = derive_authority(treasury_seed(), &deployment()).expect("derivation must exist");
    let b = derive_authority(treasury_seed(), &deployment()).expect("derivation must exist");
    assert_eq!(a.address, b.address);
    assert_eq!(a.bump, b.bump);
    assert_eq!(a.address.as_bytes().len(), 32);
    assert_eq!(a.seed, treasury_seed());
    assert_eq!(treasury_seed().len(), 8);
}

#[test]
fn derive_authority_rejects_invalid_deployment() {
    let not_an_address = Identity::new(vec![1, 2, 3]);
    let r = derive_authority(treasury_seed(), &not_an_address);
    assert_eq!(r, Err(TreasuryError::AddressSpaceExhausted));
}

#[test]
fn full_governance_scenario() {
    let auth = authority();
    let governor_key = identity_of(1);
    let mut g = fresh_governor();
    assert_eq!(g.points_supply, 10);
    assert_eq!(g.transactions, 0);

    let mut tx = create_transaction(
        &mut g,
        &governor_key,
        identity_of(2),
        vec![TransactionAccount::new(auth.address.duplicate(), false, true)],
        vec![1, 2, 3],
    );
    assert_eq!(tx.index, 0);
    assert_eq!(tx.points, CREATION_POINTS);
    assert!(!tx.did_execute);

    let early = execute_transaction(&tx, treasury_seed(), &auth.address, &deployment());
    assert_eq!(early, Err(TreasuryError::InsufficientAuthorization));
    assert!(!tx.did_execute);

    raise_to_threshold(&mut tx);
    let (inv, signer) = execute_transaction(&tx, treasury_seed(), &auth.address, &deployment())
        .expect("proposal at threshold must execute");
    assert_eq!(inv.accounts.len(), 1);
    assert_eq!(
        inv.accounts[0],
        TransactionAccount::new(auth.address.duplicate(), true, true)
    );
    assert_eq!(inv.data, vec![1, 2, 3]);
    assert_eq!(signer.bump, auth.bump);
    complete_execution(&mut tx, Ok(())).expect("commit of a reported success");
    assert!(tx.did_execute);

    let again = execute_transaction(&tx, treasury_seed(), &auth.address, &deployment());
    assert_eq!(again, Err(TreasuryError::AlreadyExecuted));
}

use escrow_vault::authorize::contains_subrange;
use escrow_vault::authorize::CompanionInstruction;
use escrow_vault::errors::FeeAccountError;
use escrow_vault::errors::VaultError;
use escrow_vault::identity::Identity;
use escrow_vault::ops::admin_withdrawal;
use escrow_vault::ops::deposit;
use escrow_vault::ops::deposit_checks;
use escrow_vault::ops::initialize_fee_account;
use escrow_vault::ops::initialize_vault;
use escrow_vault::ops::set_vault_pause;
use escrow_vault::ops::withdrawal;
use escrow_vault::ops::withdrawal_settle;
use escrow_vault::ops::withdrawal_success_event;
use escrow_vault::ops::TransferOutcome;
use escrow_vault::ops::WithdrawalDecision;
use escrow_vault::state::FeeAccount;
use escrow_vault::state::Vault;

fn ident(b: u8) -> Identity {
    Identity::new([b; 32])
}

fn fresh_vault() -> Vault {
    Vault {
        admin: Identity::zero(),
        operator: Identity::zero(),
        fee_account: Identity::zero(),
        total_deposited: 0,
        total_withdrawn: 0,
        withdrawal_fee_bps: 0,
        last_admin_withdrawal: None,
        is_paused: false,
        withdrawal_counter: 0,
        bump: 0,
    }
}

/// A vault owned by admin 1 with operator 2, fee account 3, and the given
/// deposited total.
fn vault_with(total_deposited: u64) -> Vault {
    let mut v = fresh_vault();
    initialize_vault(&mut v, &ident(1), ident(2), ident(3), 254).unwrap();
    if total_deposited > 0 {
        deposit(&mut v, total_deposited).unwrap();
    }
    v
}

/// Payload carrying both the signed message and the operator's key bytes,
/// targeting the given program.
fn attestation(program: Identity, message: &[u8], operator: &Identity) -> CompanionInstruction {
    let mut data: Vec<u8> = vec![7, 7, 7];
    data.extend_from_slice(message);
    data.push(9);
    data.extend_from_slice(&operator.to_bytes());
    data.push(9);
    CompanionInstruction { program_id: program, data }
}

#[test]
fn vault_initialization_creates_record() {
    let mut v = fresh_vault();
    let r = initialize_vault(&mut v, &ident(1), ident(2), ident(3), 254);
    let event = r.unwrap().expect("creation emits a notification");
    assert!(event.admin.equals(&ident(1)));
    assert!(event.operator.equals(&ident(2)));
    assert!(v.admin.equals(&ident(1)));
    assert!(v.operator.equals(&ident(2)));
    assert!(v.fee_account.equals(&ident(3)));
    assert_eq!(v.total_deposited, 0);
    assert_eq!(v.total_withdrawn, 0);
    assert_eq!(v.withdrawal_fee_bps, 200);
    assert_eq!(v.last_admin_withdrawal, None);
    assert!(!v.is_paused);
    assert_eq!(v.withdrawal_counter, 0);
    assert_eq!(v.bump, 254);
}

#[test]
fn vault_creation_zeroes_a_stale_counter() {
    let mut v = fresh_vault();
    v.withdrawal_counter = 7;
    v.total_withdrawn = 9;
    initialize_vault(&mut v, &ident(1), ident(2), ident(3), 254).unwrap();
    assert_eq!(v.withdrawal_counter, 0);
    assert_eq!(v.total_withdrawn, 0);
    assert_eq!(v.total_deposited, 0);
}

#[test]
fn vault_initialization_is_idempotent() {
    let mut v = vault_with(500);
    let before = v;
    let r = initialize_vault(&mut v, &ident(1), ident(9), ident(8), 1);
    assert!(r.unwrap().is_none());
    assert!(v.admin.equals(&before.admin));
    assert!(v.operator.equals(&before.operator));
    assert_eq!(v.total_deposited, before.total_deposited);
    assert_eq!(v.total_withdrawn, before.total_withdrawn);
    assert_eq!(v.withdrawal_fee_bps, before.withdrawal_fee_bps);
    assert_eq!(v.bump, before.bump);
}

#[test]
fn vault_initialization_rejects_other_caller() {
    let mut v = vault_with(500);
    let r = initialize_vault(&mut v, &ident(4), ident(9), ident(8), 1);
    assert!(matches!(r, Err(VaultError::AdminError)));
    assert!(v.admin.equals(&ident(1)));
    assert!(v.operator.equals(&ident(2)));
    assert_eq!(v.total_deposited, 500);
}

#[test]
fn fee_account_initialization_creates_and_verifies() {
    let mut f = FeeAccount { admin: Identity::zero(), total_fee_amount: 0 };
    assert_eq!(initialize_fee_account(&mut f, &ident(1)), Ok(()));
    assert!(f.admin.equals(&ident(1)));
    assert_eq!(f.total_fee_amount, 0);

    assert_eq!(initialize_fee_account(&mut f, &ident(1)), Ok(()));
    assert!(f.admin.equals(&ident(1)));

    assert_eq!(initialize_fee_account(&mut f, &ident(2)), Err(FeeAccountError::AdminError));
    assert!(f.admin.equals(&ident(1)));
}

#[test]
fn deposit_adds_exactly_once() {
    let mut v = vault_with(0);
    assert_eq!(deposit_checks(&v, 40), Ok(()));
    assert_eq!(deposit(&mut v, 40), Ok(()));
    assert_eq!(v.total_deposited, 40);
    assert_eq!(deposit(&mut v, 2), Ok(()));
    assert_eq!(v.total_deposited, 42);
    assert_eq!(v.total_withdrawn, 0);
    assert_eq!(v.withdrawal_counter, 0);
}

#[test]
fn deposit_rejects_zero_amount() {
    let mut v = vault_with(10);
    assert_eq!(deposit_checks(&v, 0), Err(VaultError::InvalidAmount));
    assert_eq!(deposit(&mut v, 0), Err(VaultError::InvalidAmount));
    assert_eq!(v.total_deposited, 10);
}

#[test]
fn deposit_rejects_overflow() {
    let mut v = vault_with(0);
    assert_eq!(deposit(&mut v, u64::MAX), Ok(()));
    assert_eq!(deposit(&mut v, 1), Err(VaultError::MathOverflow));
    assert_eq!(v.total_deposited, u64::MAX);
}

#[test]
fn pause_gates_deposit_and_withdrawal() {
    let mut v = vault_with(1000);
    set_vault_pause(&mut v, &ident(1), true).unwrap();
    assert_eq!(deposit_checks(&v, 5), Err(VaultError::VaultPaused));
    assert_eq!(deposit(&mut v, 5), Err(VaultError::VaultPaused));
    let ix = attestation(ident(7), b"approve", &v.operator);
    let r = withdrawal(&v, 100, &b"operator".to_vec(), &b"approve".to_vec(), &ix, &ident(7));
    assert_eq!(r, Err(VaultError::VaultPaused));
    assert_eq!(v.total_deposited, 1000);
}

#[test]
fn pause_toggle_requires_admin() {
    let mut v = vault_with(0);
    let r = set_vault_pause(&mut v, &ident(4), true);
    assert!(matches!(r, Err(VaultError::AdminError)));
    assert!(!v.is_paused);

    let r = set_vault_pause(&mut v, &ident(1), true);
    assert_eq!(r.unwrap().paused, true);
    assert!(v.is_paused);

    set_vault_pause(&mut v, &ident(1), false).unwrap();
    assert!(!v.is_paused);
}

#[test]
fn withdrawal_requires_strictly_more_deposited() {
    let v = vault_with(100);
    let ix = attestation(ident(7), b"approve", &v.operator);
    let op = b"operator".to_vec();
    let msg = b"approve".to_vec();
    assert_eq!(withdrawal(&v, 100, &op, &msg, &ix, &ident(7)),
        Err(VaultError::InsufficientBalance));
    assert_eq!(withdrawal(&v, 150, &op, &msg, &ix, &ident(7)),
        Err(VaultError::InsufficientBalance));
    assert!(matches!(withdrawal(&v, 99, &op, &msg, &ix, &ident(7)), Ok(_)));
}

#[test]
fn withdrawal_rejects_zero_amount() {
    let v = vault_with(100);
    let ix = attestation(ident(7), b"approve", &v.operator);
    assert_eq!(withdrawal(&v, 0, &b"op".to_vec(), &b"approve".to_vec(), &ix, &ident(7)),
        Err(VaultError::InvalidAmount));
}

#[test]
fn withdrawal_requires_expected_verifier() {
    let v = vault_with(1000);
    let ix = attestation(ident(6), b"approve", &v.operator);
    let r = withdrawal(&v, 100, &b"op".to_vec(), &b"approve".to_vec(), &ix, &ident(7));
    assert_eq!(r, Err(VaultError::ProgramMissing));
}

#[test]
fn withdrawal_requires_signed_message() {
    let v = vault_with(1000);
    let ix = attestation(ident(7), b"something else", &v.operator);
    let r = withdrawal(&v, 100, &b"op".to_vec(), &b"approve".to_vec(), &ix, &ident(7));
    assert_eq!(r, Err(VaultError::SignedMessageMissing));
}

#[test]
fn withdrawal_skips_silently_without_operator_key() {
    let v = vault_with(1000);
    let other = ident(42);
    let ix = attestation(ident(7), b"approve", &other);
    let r = withdrawal(&v, 100, &b"op".to_vec(), &b"approve".to_vec(), &ix, &ident(7));
    assert_eq!(r, Ok(WithdrawalDecision::Skipped));
    assert_eq!(v.total_deposited, 1000);
    assert_eq!(v.withdrawal_counter, 0);
}

#[test]
fn approved_withdrawal_scenario() {
    let mut v = vault_with(1000);
    let ix = attestation(ident(7), b"withdraw 100 for user", &v.operator);
    let r = withdrawal(
        &v,
        100,
        &b"operator".to_vec(),
        &b"withdraw 100 for user".to_vec(),
        &ix,
        &ident(7),
    );
    let (fee, net) = match r.unwrap() {
        WithdrawalDecision::Approved { fee, net } => (fee, net),
        WithdrawalDecision::Skipped => panic!("expected approval"),
    };
    assert_eq!(net, 98);
    assert_eq!(fee, 2);

    let settled = withdrawal_settle(&mut v, 100, TransferOutcome::Succeeded);
    assert_eq!(settled, Ok(true));
    assert_eq!(v.total_deposited, 900);
    assert_eq!(v.total_withdrawn, 100);
    assert_eq!(v.withdrawal_counter, 1);

    let event = withdrawal_success_event(ident(9), 100, 1_700_000_000);
    assert!(event.user.equals(&ident(9)));
    assert_eq!(event.amount, 100);
    assert_eq!(event.fee, 2);
    assert_eq!(event.timestamp, 1_700_000_000);
}

#[test]
fn failed_payout_is_swallowed() {
    let mut v = vault_with(1000);
    let r = withdrawal_settle(&mut v, 100, TransferOutcome::Failed);
    assert_eq!(r, Ok(false));
    assert_eq!(v.total_deposited, 1000);
    assert_eq!(v.total_withdrawn, 0);
    assert_eq!(v.withdrawal_counter, 0);
}

#[test]
fn settle_rejects_overdraw_and_overflow() {
    let mut v = vault_with(50);
    let r = withdrawal_settle(&mut v, 60, TransferOutcome::Succeeded);
    assert_eq!(r, Err(VaultError::MathOverflow));
    assert_eq!(v.total_deposited, 50);
    assert_eq!(v.total_withdrawn, 0);

    let mut v = vault_with(50);
    v.total_withdrawn = u64::MAX;
    let r = withdrawal_settle(&mut v, 10, TransferOutcome::Succeeded);
    assert_eq!(r, Err(VaultError::MathOverflow));
    assert_eq!(v.total_deposited, 50);
    assert_eq!(v.total_withdrawn, u64::MAX);
}

#[test]
fn fee_is_two_percent_rounded_down() {
    let cases: [(u64, u64); 6] = [(100, 2), (99, 1), (50, 1), (49, 0), (1, 0), (12_345, 246)];
    for (amount, fee) in cases {
        let event = withdrawal_success_event(ident(9), amount, 0);
        assert_eq!(event.fee, fee);
        assert_eq!(event.amount, amount);
    }
}

#[test]
fn admin_withdrawal_sweeps_above_reserve() {
    let v = vault_with(1000);
    assert_eq!(admin_withdrawal(&v, 1500, 300), Ok(1200));
}

#[test]
fn admin_withdrawal_blocked_at_reserve() {
    let v = vault_with(300);
    assert_eq!(admin_withdrawal(&v, 1500, 300), Err(VaultError::AdminWithdrawal));
    assert_eq!(admin_withdrawal(&v, 1500, 1000), Err(VaultError::AdminWithdrawal));
}

#[test]
fn admin_withdrawal_detects_underflow() {
    let v = vault_with(1000);
    assert_eq!(admin_withdrawal(&v, 100, 300), Err(VaultError::MathOverflow));
}

#[test]
fn empty_expected_message_counts_as_present() {
    let v = vault_with(1000);
    let ix = attestation(ident(7), b"", &v.operator);
    let r = withdrawal(&v, 100, &b"op".to_vec(), &Vec::new(), &ix, &ident(7));
    assert!(matches!(r, Ok(WithdrawalDecision::Approved { fee: 2, net: 98 })));
}

#[test]
fn contains_subrange_finds_runs() {
    let hay = vec![1u8, 2, 3, 4, 5];
    assert!(contains_subrange(&hay, &vec![3u8, 4]));
    assert!(contains_subrange(&hay, &vec![1u8, 2, 3, 4, 5]));
    assert!(contains_subrange(&hay, &vec![5u8]));
    assert!(contains_subrange(&hay, &Vec::new()));
    assert!(!contains_subrange(&hay, &vec![2u8, 4]));
    assert!(!contains_subrange(&hay, &vec![1u8, 2, 3, 4, 5, 6]));
    assert!(!contains_subrange(&Vec::new(), &vec![1u8]));
}

//! The engine's guarantees, stated once over the transition functions and
//! proved for every state and input: idempotent initialization, deposit
//! monotonicity, withdrawal conservation, and the pause, balance and
//! authorization gates.

use vstd::prelude::*;
use crate::authorize::contains_seq;
use crate::errors::is_authorization_error;
use crate::errors::is_state_error;
use crate::errors::FeeAccountError;
use crate::errors::VaultError;
use crate::identity::zero_identity_bytes;
use crate::identity::Identity;
use crate::ops::spec_admin_withdrawal;
use crate::ops::spec_deposit;
use crate::ops::spec_fee;
use crate::ops::spec_initialize_fee_account;
use crate::ops::spec_initialize_vault;
use crate::ops::spec_set_vault_pause;
use crate::ops::spec_settle;
use crate::ops::spec_withdrawal;
use crate::ops::WithdrawalDecision;
use crate::state::FeeAccount;
use crate::state::Vault;
use crate::state::VaultInitialized;

verus! {

/// Initializing a vault twice with the same admin leaves the record of the
/// first call untouched — admin, operator and totals included — whatever
/// configuration the second call asks for, and reports no creation. The
/// admin must be a real identity: the all-zero identity is the sentinel of
/// a record that was never created.
pub proof fn lemma_initialize_vault_idempotent(
    v0: Vault,
    admin: Identity,
    operator: Identity,
    fee_account: Identity,
    bump: u8,
    operator2: Identity,
    fee_account2: Identity,
    bump2: u8,
)
    requires
        admin@ != zero_identity_bytes(),
    ensures
        ({
            let (v1, r1) = spec_initialize_vault(v0, admin, operator, fee_account, bump);
            let (v2, r2) = spec_initialize_vault(v1, admin, operator2, fee_account2, bump2);
            v2 == v1 && (r1 is Ok ==> r2 == Ok::<Option<VaultInitialized>, VaultError>(None)) && (
            r1 is Err ==> r2 == r1)
        }),
{
}

/// After a vault exists, initialization by any caller other than its admin
/// fails with an authorization error and changes nothing.
pub proof fn lemma_initialize_vault_admin_mismatch(
    v: Vault,
    caller: Identity,
    operator: Identity,
    fee_account: Identity,
    bump: u8,
)
    requires
        !v.is_fresh(),
        caller@ != v.admin@,
    ensures
        ({
            let (v2, r) = spec_initialize_vault(v, caller, operator, fee_account, bump);
            v2 == v && r == Err::<Option<VaultInitialized>, VaultError>(VaultError::AdminError)
                && is_authorization_error(VaultError::AdminError)
        }),
{
}

/// Initializing a fee account twice with the same admin changes nothing on
/// the second call; after creation, any other caller fails with an
/// authorization error and changes nothing.
pub proof fn lemma_initialize_fee_account_idempotent(f0: FeeAccount, admin: Identity)
    requires
        admin@ != zero_identity_bytes(),
    ensures
        ({
            let (f1, r1) = spec_initialize_fee_account(f0, admin);
            let (f2, r2) = spec_initialize_fee_account(f1, admin);
            f2 == f1 && r2 == r1
        }),
{
}

/// After a fee account exists, initialization by any other caller fails and
/// changes nothing.
pub proof fn lemma_initialize_fee_account_admin_mismatch(f: FeeAccount, caller: Identity)
    requires
        !f.is_fresh(),
        caller@ != f.admin@,
    ensures
        ({
            let (f2, r) = spec_initialize_fee_account(f, caller);
            f2 == f && r == Err::<(), FeeAccountError>(FeeAccountError::AdminError)
        }),
{
}

/// A successful deposit of `a` raises the deposited total by exactly `a`,
/// once, and changes nothing else; a failed deposit changes nothing at all.
pub proof fn lemma_deposit_monotonic(v: Vault, amount: u64)
    ensures
        ({
            let (v2, r) = spec_deposit(v, amount);
            (r is Ok ==> v2 == Vault {
                total_deposited: (v.total_deposited + amount) as u64,
                ..v
            } && v2.total_deposited == v.total_deposited + amount) && (r is Err ==> v2 == v)
        }),
{
}

/// Conservation of an approved withdrawal of `a`: the decision pays the
/// user exactly `a - fee` with `fee == (a * 2) / 100`, so user and fee
/// account together receive exactly `a`; and recording a successful payout
/// lowers the deposited total by `a`, raises the withdrawn total by `a`,
/// and advances the counter by one.
pub proof fn lemma_withdrawal_conservation(
    v: Vault,
    amount: u64,
    message: Seq<u8>,
    ix_program: Seq<u8>,
    ix_data: Seq<u8>,
    verifier: Seq<u8>,
)
    requires
        v.withdrawal_counter < u64::MAX,
    ensures
        ({
            let d = spec_withdrawal(v, amount, message, ix_program, ix_data, verifier);
            d matches Ok(WithdrawalDecision::Approved { fee, net }) ==> fee == spec_fee(amount)
                && fee == (amount * 2) / 100 && net == amount - fee && net + fee == amount
        }),
        v.total_withdrawn + amount <= u64::MAX && amount <= v.total_deposited ==> ({
            let (v2, r) = spec_settle(v, amount);
            r == Ok::<bool, VaultError>(true) && v2.total_deposited == v.total_deposited - amount
                && v2.total_withdrawn == v.total_withdrawn + amount && v2.withdrawal_counter
                == v.withdrawal_counter + 1
        }),
{
    crate::ops::lemma_fee_formula(amount);
}

/// While the vault is paused, deposit and withdrawal both fail with a state
/// error, for any amount and any attestation, and change nothing.
pub proof fn lemma_pause_gating(
    v: Vault,
    amount: u64,
    message: Seq<u8>,
    ix_program: Seq<u8>,
    ix_data: Seq<u8>,
    verifier: Seq<u8>,
)
    requires
        v.is_paused,
    ensures
        ({
            let (v2, r) = spec_deposit(v, amount);
            v2 == v && r == Err::<(), VaultError>(VaultError::VaultPaused)
        }),
        spec_withdrawal(v, amount, message, ix_program, ix_data, verifier) == Err::<
            WithdrawalDecision,
            VaultError,
        >(VaultError::VaultPaused),
        is_state_error(VaultError::VaultPaused),
{
}

/// A withdrawal of a positive amount that the deposited total does not
/// strictly exceed fails with a state error, whatever the attestation.
pub proof fn lemma_insufficient_balance_gating(
    v: Vault,
    amount: u64,
    message: Seq<u8>,
    ix_program: Seq<u8>,
    ix_data: Seq<u8>,
    verifier: Seq<u8>,
)
    requires
        amount > 0,
        v.total_deposited <= amount,
    ensures
        ({
            let r = spec_withdrawal(v, amount, message, ix_program, ix_data, verifier);
            r matches Err(e) && is_state_error(e)
        }),
        !v.is_paused ==> spec_withdrawal(v, amount, message, ix_program, ix_data, verifier)
            == Err::<WithdrawalDecision, VaultError>(VaultError::InsufficientBalance),
{
}

/// Even with every balance precondition satisfied, a withdrawal fails when
/// the companion instruction does not target the expected verifier, fails
/// when the expected message bytes are absent from its payload, and is
/// silently skipped — no funds move, no error — when the operator's key
/// bytes are absent.
pub proof fn lemma_authorization_gating(
    v: Vault,
    amount: u64,
    message: Seq<u8>,
    ix_program: Seq<u8>,
    ix_data: Seq<u8>,
    verifier: Seq<u8>,
)
    requires
        !v.is_paused,
        amount > 0,
        v.total_deposited > amount,
    ensures
        ix_program != verifier ==> spec_withdrawal(v, amount, message, ix_program, ix_data, verifier)
            == Err::<WithdrawalDecision, VaultError>(VaultError::ProgramMissing),
        ix_program == verifier && !contains_seq(ix_data, message) ==> spec_withdrawal(
            v,
            amount,
            message,
            ix_program,
            ix_data,
            verifier,
        ) == Err::<WithdrawalDecision, VaultError>(VaultError::SignedMessageMissing),
        ix_program == verifier && contains_seq(ix_data, message) && !contains_seq(
            ix_data,
            v.operator@,
        ) ==> spec_withdrawal(v, amount, message, ix_program, ix_data, verifier) == Ok::<
            WithdrawalDecision,
            VaultError,
        >(WithdrawalDecision::Skipped),
{
}

/// A pause toggle by any identity other than the vault's admin fails with
/// an authorization error and leaves the pause flag — and the whole vault —
/// unchanged.
pub proof fn lemma_admin_only_pause(v: Vault, caller: Identity, paused: bool)
    requires
        caller@ != v.admin@,
    ensures
        ({
            let (v2, r) = spec_set_vault_pause(v, caller, paused);
            v2 == v && v2.is_paused == v.is_paused && r == Err::<
                crate::state::PauseStatus,
                VaultError,
            >(VaultError::AdminError) && is_authorization_error(VaultError::AdminError)
        }),
{
}

/// An admin sweep is blocked with a state error whenever the deposited
/// total does not strictly exceed the rent-exemption reserve.
pub proof fn lemma_admin_withdrawal_blocked(v: Vault, vault_lamports: u64, rent_exempt: u64)
    requires
        v.total_deposited <= rent_exempt,
    ensures
        spec_admin_withdrawal(v, vault_lamports, rent_exempt) == Err::<u64, VaultError>(
            VaultError::AdminWithdrawal,
        ),
        is_state_error(VaultError::AdminWithdrawal),
{
}

} // verus!


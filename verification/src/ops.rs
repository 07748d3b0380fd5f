//! Operations engine: deposit, operator-authorized withdrawal, admin sweep
//! and pause toggle. Each operation is split where the host ledger acts:
//! a verified decision step says whether and how much value may move, the
//! caller performs the transfer, and a verified settlement step records the
//! outcome. Every step is a function of the records and plain inputs, so the
//! whole rule set is checked here; only the value movement itself is not.

use vstd::prelude::*;
use crate::authorize::check_authorization;
use crate::authorize::spec_authorize;
use crate::authorize::Authorization;
use crate::authorize::CompanionInstruction;
use crate::errors::FeeAccountError;
use crate::errors::VaultError;
use crate::identity::Identity;
use crate::state::FeeAccount;
use crate::state::PauseStatus;
use crate::state::Vault;
use crate::state::VaultInitialized;
use crate::state::WithdrawalSucces;

verus! {

/// The protocol fee on a withdrawal of `amount`: a fixed two percent,
/// rounded down. The configurable `withdrawal_fee_bps` field is deliberately
/// not consulted, matching the engine's current fee policy.
pub open spec fn spec_fee(amount: u64) -> int {
    (amount * 2) / 100
}

/// Two percent rounded down equals division by fifty, and never exceeds
/// the amount itself.
pub proof fn lemma_fee_formula(amount: u64)
    ensures
        spec_fee(amount) == amount as int / 50,
        0 <= spec_fee(amount) <= amount,
{
    assert((amount as int * 2) / 100 == amount as int / 50) by (nonlinear_arith);
    assert(0 <= amount as int / 50 <= amount) by (nonlinear_arith);
}

/// Create-or-verify transition of a fee account: a fresh record is claimed
/// by the caller with a zero total; an existing record only checks that the
/// caller is its admin.
pub open spec fn spec_initialize_fee_account(f: FeeAccount, admin: Identity) -> (
    FeeAccount,
    Result<(), FeeAccountError>,
) {
    if f.is_fresh() {
        (FeeAccount { admin: admin, total_fee_amount: 0 }, Ok(()))
    } else if f.admin@ == admin@ {
        (f, Ok(()))
    } else {
        (f, Err(FeeAccountError::AdminError))
    }
}

/// Initializes the fee account on first call and verifies ownership on any
/// later call. No value moves.
pub fn initialize_fee_account(fee_account: &mut FeeAccount, admin: &Identity) -> (r: Result<
    (),
    FeeAccountError,
>)
    ensures
        ({
            let (f2, res) = spec_initialize_fee_account(*old(fee_account), *admin);
            *final(fee_account) == f2 && r == res
        }),
{
    if fee_account.admin.is_zero() {
        fee_account.admin = *admin;
        fee_account.total_fee_amount = 0;
        Ok(())
    } else if fee_account.admin.equals(admin) {
        Ok(())
    } else {
        Err(FeeAccountError::AdminError)
    }
}

/// Create-or-verify transition of a vault: a fresh record is claimed by the
/// caller with the given configuration, zeroed totals and default fee rate;
/// an existing record only checks that the caller is its admin.
pub open spec fn spec_initialize_vault(
    v: Vault,
    admin: Identity,
    operator: Identity,
    fee_account: Identity,
    bump: u8,
) -> (Vault, Result<Option<VaultInitialized>, VaultError>) {
    if v.is_fresh() {
        let v2 = Vault {
            admin: admin,
            operator: operator,
            fee_account: fee_account,
            total_deposited: 0,
            total_withdrawn: 0,
            withdrawal_fee_bps: 200,
            last_admin_withdrawal: None,
            is_paused: false,
            withdrawal_counter: 0,
            bump: bump,
        };
        (v2, Ok(Some(VaultInitialized { admin: admin, operator: operator })))
    } else if v.admin@ == admin@ {
        (v, Ok(None))
    } else {
        (v, Err(VaultError::AdminError))
    }
}

/// Initializes the vault on first call, returning the notification to emit,
/// and verifies ownership on any later call. The bump of the vault's derived
/// signing authority comes from the host ledger's address derivation.
pub fn initialize_vault(
    vault: &mut Vault,
    admin: &Identity,
    operator: Identity,
    fee_account: Identity,
    bump: u8,
) -> (r: Result<Option<VaultInitialized>, VaultError>)
    ensures
        ({
            let (v2, res) = spec_initialize_vault(*old(vault), *admin, operator, fee_account, bump);
            *final(vault) == v2 && r == res
        }),
{
    if vault.admin.is_zero() {
        vault.admin = *admin;
        vault.operator = operator;
        vault.is_paused = false;
        vault.fee_account = fee_account;
        vault.last_admin_withdrawal = None;
        vault.withdrawal_fee_bps = 200;
        vault.total_deposited = 0;
        vault.total_withdrawn = 0;
        vault.withdrawal_counter = 0;
        vault.bump = bump;
        Ok(Some(VaultInitialized { admin: *admin, operator: operator }))
    } else if vault.admin.equals(admin) {
        Ok(None)
    } else {
        Err(VaultError::AdminError)
    }
}

/// Gate of a deposit: rejected while paused, and for a zero amount.
pub open spec fn spec_deposit_gate(v: Vault, amount: u64) -> Result<(), VaultError> {
    if v.is_paused {
        Err(VaultError::VaultPaused)
    } else if amount == 0 {
        Err(VaultError::InvalidAmount)
    } else {
        Ok(())
    }
}

/// Complete deposit transition: the checks above, then the deposited total
/// grows by the amount if the sum fits in the counter. Nothing changes on
/// any failure.
pub open spec fn spec_deposit(v: Vault, amount: u64) -> (Vault, Result<(), VaultError>) {
    match spec_deposit_gate(v, amount) {
        Err(e) => (v, Err(e)),
        Ok(_) => if v.total_deposited + amount > u64::MAX {
            (v, Err(VaultError::MathOverflow))
        } else {
            (Vault { total_deposited: (v.total_deposited + amount) as u64, ..v }, Ok(()))
        },
    }
}

/// Checks that a deposit may proceed, before the caller moves any value:
/// `Ok` exactly when the vault is not paused and the amount is positive.
pub fn deposit_checks(vault: &Vault, amount: u64) -> (r: Result<(), VaultError>)
    ensures
        r == spec_deposit_gate(*vault, amount),
        r is Ok <==> !vault.is_paused && amount > 0,
{
    if vault.is_paused {
        Err(VaultError::VaultPaused)
    } else if amount == 0 {
        Err(VaultError::InvalidAmount)
    } else {
        Ok(())
    }
}

/// Records a deposit after the caller has moved `amount` into the vault's
/// custodial balance: on success the deposited total grows by exactly
/// `amount` and nothing else changes; on any failure nothing changes.
pub fn deposit(vault: &mut Vault, amount: u64) -> (r: Result<(), VaultError>)
    ensures
        ({
            let (v2, res) = spec_deposit(*old(vault), amount);
            *final(vault) == v2 && r == res
        }),
        r is Ok ==> final(vault).total_deposited == old(vault).total_deposited + amount,
        r is Err ==> *final(vault) == *old(vault),
{
    if vault.is_paused {
        return Err(VaultError::VaultPaused);
    }
    if amount == 0 {
        return Err(VaultError::InvalidAmount);
    }
    if amount > u64::MAX - vault.total_deposited {
        return Err(VaultError::MathOverflow);
    }
    vault.total_deposited = vault.total_deposited + amount;
    Ok(())
}

/// What the engine decided about an operator-authorized withdrawal request
/// whose gates all passed.
#[derive(Clone, Copy, Debug, PartialEq, Eq, Structural)]
pub enum WithdrawalDecision {
    /// The attestation does not name the vault's operator: no funds move and
    /// no error is raised. This silent skip is deliberate engine policy.
    Skipped,
    /// Approved: pay `net` to the user, then `fee` to the fee account, both
    /// signed by the vault's derived authority.
    Approved { fee: u64, net: u64 },
}

/// Decision transition of a withdrawal: state and input gates first, then
/// the authorization checker's verdict on the companion instruction, then
/// the fee split of the approved amount.
pub open spec fn spec_withdrawal(
    v: Vault,
    amount: u64,
    message: Seq<u8>,
    ix_program: Seq<u8>,
    ix_data: Seq<u8>,
    verifier: Seq<u8>,
) -> Result<WithdrawalDecision, VaultError> {
    if v.is_paused {
        Err(VaultError::VaultPaused)
    } else if amount == 0 {
        Err(VaultError::InvalidAmount)
    } else if v.total_deposited <= amount {
        Err(VaultError::InsufficientBalance)
    } else {
        match spec_authorize(ix_program, ix_data, verifier, message, v.operator@) {
            Err(e) => Err(e),
            Ok(Authorization::OperatorAbsent) => Ok(WithdrawalDecision::Skipped),
            Ok(Authorization::Approved) => Ok(
                WithdrawalDecision::Approved {
                    fee: spec_fee(amount) as u64,
                    net: (amount - spec_fee(amount)) as u64,
                },
            ),
        }
    }
}

/// Decides an operator-authorized withdrawal. `operator_key` is the caller's
/// informational name for the operator and is not itself trusted; the vault's
/// stored operator identity is what the attestation must carry. The caller
/// supplies the companion instruction and the well-known identity of the
/// platform's signature verifier. No value moves here: on approval the
/// caller pays out `net` and `fee` and then records with
/// [`withdrawal_settle`].
pub fn withdrawal(
    vault: &Vault,
    amount: u64,
    _operator_key: &Vec<u8>,
    signed_message: &Vec<u8>,
    instruction: &CompanionInstruction,
    verifier: &Identity,
) -> (r: Result<WithdrawalDecision, VaultError>)
    ensures
        r == spec_withdrawal(
            *vault,
            amount,
            signed_message@,
            instruction.program_id@,
            instruction.data@,
            verifier@,
        ),
        (r matches Ok(WithdrawalDecision::Approved { fee, net }) ==> fee == spec_fee(amount)
            && net + fee == amount),
{
    if vault.is_paused {
        return Err(VaultError::VaultPaused);
    }
    if amount == 0 {
        return Err(VaultError::InvalidAmount);
    }
    if vault.total_deposited <= amount {
        return Err(VaultError::InsufficientBalance);
    }
    match check_authorization(instruction, verifier, signed_message, &vault.operator) {
        Err(e) => Err(e),
        Ok(Authorization::OperatorAbsent) => Ok(WithdrawalDecision::Skipped),
        Ok(Authorization::Approved) => {
            proof {
                lemma_fee_formula(amount);
            }
            let fee = amount / 50;
            let net = amount - fee;
            Ok(WithdrawalDecision::Approved { fee, net })
        },
    }
}

/// Outcome of a value transfer performed by the host ledger.
#[derive(Clone, Copy, Debug, PartialEq, Eq, Structural)]
pub enum TransferOutcome {
    Succeeded,
    Failed,
}

/// Settlement transition after a successful payout: the deposited total
/// falls by the withdrawn amount, the withdrawn total grows by it, and the
/// counter advances, all checked; on overflow nothing changes.
pub open spec fn spec_settle(v: Vault, amount: u64) -> (Vault, Result<bool, VaultError>) {
    if amount > v.total_deposited || v.total_withdrawn + amount > u64::MAX {
        (v, Err(VaultError::MathOverflow))
    } else {
        (
            Vault {
                total_deposited: (v.total_deposited - amount) as u64,
                total_withdrawn: (v.total_withdrawn + amount) as u64,
                withdrawal_counter: (v.withdrawal_counter + 1) as u64,
                ..v
            },
            Ok(true),
        )
    }
}

/// Records a withdrawal of `amount` after the caller attempted the payout.
/// A failed payout is logged and swallowed by engine policy: the call
/// returns `Ok(false)` and no counter changes. A successful payout is
/// recorded atomically, returning `Ok(true)`; if either checked total
/// update would overflow, nothing is recorded.
pub fn withdrawal_settle(vault: &mut Vault, amount: u64, payout: TransferOutcome) -> (r: Result<
    bool,
    VaultError,
>)
    requires
        old(vault).withdrawal_counter < u64::MAX,
    ensures
        payout is Failed ==> *final(vault) == *old(vault) && r == Ok::<bool, VaultError>(false),
        payout is Succeeded ==> ({
            let (v2, res) = spec_settle(*old(vault), amount);
            *final(vault) == v2 && r == res
        }),
        r == Ok::<bool, VaultError>(true) ==> final(vault).total_deposited == old(
            vault,
        ).total_deposited - amount && final(vault).total_withdrawn == old(vault).total_withdrawn
            + amount && final(vault).withdrawal_counter == old(vault).withdrawal_counter + 1,
        r is Err || r == Ok::<bool, VaultError>(false) ==> *final(vault) == *old(vault),
{
    match payout {
        TransferOutcome::Failed => Ok(false),
        TransferOutcome::Succeeded => {
            if amount > vault.total_deposited {
                return Err(VaultError::MathOverflow);
            }
            if amount > u64::MAX - vault.total_withdrawn {
                return Err(VaultError::MathOverflow);
            }
            vault.total_deposited = vault.total_deposited - amount;
            vault.total_withdrawn = vault.total_withdrawn + amount;
            vault.withdrawal_counter = vault.withdrawal_counter + 1;
            Ok(true)
        },
    }
}

/// Builds the notification of a completed withdrawal, with the fee the
/// engine charged on `amount`.
pub fn withdrawal_success_event(user: Identity, amount: u64, timestamp: i64) -> (r:
    WithdrawalSucces)
    ensures
        r.user == user,
        r.amount == amount,
        r.fee == spec_fee(amount),
        r.timestamp == timestamp,
{
    proof {
        lemma_fee_formula(amount);
    }
    WithdrawalSucces { user, amount, fee: amount / 50, timestamp }
}

/// Gate and sizing of an admin sweep: the deposited total must strictly
/// exceed the rent-exemption reserve, and the swept amount is the vault's
/// held balance above that reserve.
pub open spec fn spec_admin_withdrawal(v: Vault, vault_lamports: u64, rent_exempt: u64) -> Result<
    u64,
    VaultError,
> {
    if v.total_deposited <= rent_exempt {
        Err(VaultError::AdminWithdrawal)
    } else if vault_lamports < rent_exempt {
        Err(VaultError::MathOverflow)
    } else {
        Ok((vault_lamports - rent_exempt) as u64)
    }
}

/// Decides an admin sweep. `vault_lamports` is the vault's held balance and
/// `rent_exempt` the minimum reserve its storage needs, both read from the
/// host ledger. Returns the amount to sweep to the admin's address; the
/// caller performs the transfer and then records with [`withdrawal_settle`].
pub fn admin_withdrawal(vault: &Vault, vault_lamports: u64, rent_exempt: u64) -> (r: Result<
    u64,
    VaultError,
>)
    ensures
        r == spec_admin_withdrawal(*vault, vault_lamports, rent_exempt),
        vault.total_deposited <= rent_exempt ==> r == Err::<u64, VaultError>(
            VaultError::AdminWithdrawal,
        ),
        r matches Ok(amount) ==> amount == vault_lamports - rent_exempt,
{
    if vault.total_deposited <= rent_exempt {
        return Err(VaultError::AdminWithdrawal);
    }
    if vault_lamports < rent_exempt {
        return Err(VaultError::MathOverflow);
    }
    Ok(vault_lamports - rent_exempt)
}

/// Pause-toggle transition: only the vault's admin may flip the flag;
/// any other caller fails and changes nothing.
pub open spec fn spec_set_vault_pause(v: Vault, caller: Identity, paused: bool) -> (
    Vault,
    Result<PauseStatus, VaultError>,
) {
    if v.admin@ == caller@ {
        (Vault { is_paused: paused, ..v }, Ok(PauseStatus { paused }))
    } else {
        (v, Err(VaultError::AdminError))
    }
}

/// Sets the pause flag, returning the notification to emit. The caller's
/// identity must already be proven by the host ledger's signature check;
/// here it must equal the vault's stored admin.
pub fn set_vault_pause(vault: &mut Vault, caller: &Identity, paused: bool) -> (r: Result<
    PauseStatus,
    VaultError,
>)
    ensures
        ({
            let (v2, res) = spec_set_vault_pause(*old(vault), *caller, paused);
            *final(vault) == v2 && r == res
        }),
        r is Err ==> *final(vault) == *old(vault) && final(vault).is_paused == old(
            vault,
        ).is_paused,
        r is Ok ==> final(vault).is_paused == paused,
{
    if vault.admin.equals(caller) {
        vault.is_paused = paused;
        Ok(PauseStatus { paused })
    } else {
        Err(VaultError::AdminError)
    }
}

} // verus!

//! Error taxonomy of the operations engine. Every error is terminal for the
//! operation that raised it; none is retried.

use vstd::prelude::*;

verus! {

/// Failures of vault operations.
#[derive(Clone, Copy, Debug, PartialEq, Eq, Structural)]
pub enum VaultError {
    /// The vault's stored admin does not match the caller.
    AdminError,
    /// The vault is paused.
    VaultPaused,
    /// The requested amount is zero.
    InvalidAmount,
    /// A checked addition or subtraction on the totals failed.
    MathOverflow,
    /// The companion instruction does not target the expected verifier.
    ProgramMissing,
    /// The expected signed message is absent from the attestation payload.
    SignedMessageMissing,
    /// The deposited total does not strictly exceed the requested amount.
    InsufficientBalance,
    /// The deposited total does not exceed the minimum reserve.
    AdminWithdrawal,
}

/// Failures of fee-account operations.
#[derive(Clone, Copy, Debug, PartialEq, Eq, Structural)]
pub enum FeeAccountError {
    /// The fee account's stored admin does not match the caller.
    AdminError,
}

/// Authorization failures: a caller or attestation was not the expected one.
pub open spec fn is_authorization_error(e: VaultError) -> bool {
    e == VaultError::AdminError
        || e == VaultError::ProgramMissing
        || e == VaultError::SignedMessageMissing
}

/// State failures: the vault's own state forbids the operation.
pub open spec fn is_state_error(e: VaultError) -> bool {
    e == VaultError::VaultPaused
        || e == VaultError::InsufficientBalance
        || e == VaultError::AdminWithdrawal
}

/// Input failures: a caller-supplied value is invalid in itself.
pub open spec fn is_input_error(e: VaultError) -> bool {
    e == VaultError::InvalidAmount
}

/// Arithmetic failures: a checked operation on the totals overflowed.
pub open spec fn is_arithmetic_error(e: VaultError) -> bool {
    e == VaultError::MathOverflow
}

} // verus!

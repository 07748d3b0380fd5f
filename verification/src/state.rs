//! Persisted records: one `Vault` and one `FeeAccount` per admin identity,
//! plus the notifications the operations engine hands to observers.

use vstd::prelude::*;
use crate::identity::Identity;

verus! {

/// A singleton-per-admin ledger of accumulated protocol fees.
#[derive(Clone, Copy, Debug)]
pub struct FeeAccount {
    /// Identity owning and collecting the fees; immutable once set.
    pub admin: Identity,
    /// Cumulative fees recorded by bookkeeping.
    pub total_fee_amount: u64,
}

/// A singleton-per-admin custodial balance with its configuration and
/// running counters.
#[derive(Clone, Copy, Debug)]
pub struct Vault {
    /// Owning identity, immutable after first initialization.
    pub admin: Identity,
    /// Identity whose off-chain-signed approval gates withdrawals.
    pub operator: Identity,
    /// Reference to the associated fee account.
    pub fee_account: Identity,
    /// Running total of funds deposited and still held.
    pub total_deposited: u64,
    /// Running total of funds withdrawn.
    pub total_withdrawn: u64,
    /// Configured fee rate in basis points.
    pub withdrawal_fee_bps: u16,
    /// Reserved for future rate limiting; never set by current operations.
    pub last_admin_withdrawal: Option<i64>,
    /// When true, deposits and withdrawals are rejected.
    pub is_paused: bool,
    /// Count of successful withdrawals.
    pub withdrawal_counter: u64,
    /// Bump of the vault's derived signing authority, supplied by the host
    /// ledger's derived-address computation.
    pub bump: u8,
}

impl FeeAccount {
    /// Whether this record has never been initialized.
    pub open spec fn is_fresh(self) -> bool {
        self.admin@ == crate::identity::zero_identity_bytes()
    }
}

impl Vault {
    /// Whether this record has never been initialized.
    pub open spec fn is_fresh(self) -> bool {
        self.admin@ == crate::identity::zero_identity_bytes()
    }
}

/// Notification that a vault was created.
#[derive(Clone, Copy, Debug)]
pub struct VaultInitialized {
    pub admin: Identity,
    pub operator: Identity,
}

/// Notification that an operator-authorized withdrawal completed.
#[derive(Clone, Copy, Debug)]
pub struct WithdrawalSucces {
    pub user: Identity,
    pub amount: u64,
    pub fee: u64,
    pub timestamp: i64,
}

/// Notification that the pause flag changed.
#[derive(Clone, Copy, Debug)]
pub struct PauseStatus {
    pub paused: bool,
}

} // verus!

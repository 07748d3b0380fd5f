//! A custodial value-vault: it holds deposited funds per admin identity,
//! releases them only on proof that an authorized off-chain operator approved
//! the withdrawal, and skims a protocol fee on every approved release.
//!
//! The library is the verified core: vault and fee-account state, the
//! authorization checker that inspects a companion attestation, and the
//! operations engine that decides and records deposits, withdrawals and
//! pause toggles. Value movement, clocks and rent floors belong to the host
//! ledger; callers perform them and feed the outcomes back in.

pub mod authorize;
pub mod errors;
pub mod identity;
pub mod laws;
pub mod ops;
pub mod state;

//! Accounting core of a liquid-staking pool: the ledger record, share/value
//! conversion, reserve and stake-delta bookkeeping, and the guards that every
//! mutating operation runs first.
pub mod accounts;
pub mod calc;
pub mod checks;
pub mod config_lp;
pub mod error;
pub mod fee;
pub mod marinade;
pub mod pubkey;

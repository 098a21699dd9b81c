//! Service-level guarantees backed by staked collateral.
//!
//! Providers register with a stake, commit to a service level, and lose a
//! share of the stake to whoever reports a violation of it. This crate holds
//! the rules: who may do what, what each operation changes, and which funds
//! must move with it. Keeping the records, moving the funds and knowing who
//! is calling are left to the caller.

pub mod error;
pub mod ledger;
pub mod limits;
pub mod provider;
pub mod pubkey;
pub mod registry;
pub mod sla;
pub mod slashing;
pub mod transfer;
pub mod violation;

pub use error::CovenantError;
pub use limits::{MAX_DESCRIPTION_LEN, MAX_ENDPOINT_LEN, MAX_NAME_LEN, MIN_STAKE};
pub use provider::{
    record_success, register_provider, withdraw_stake, Provider, RecordSuccess, RegisterProvider,
    WithdrawStake,
};
pub use pubkey::Pubkey;
pub use registry::{initialize, Initialize, Protocol};
pub use sla::{define_sla, DefineSLA, SLA};
pub use slashing::{slash, slash_amount, Slash};
pub use transfer::Transfer;
pub use violation::{report_violation, ReportViolation, Violation, ViolationType};

//! Violations: reports that a provider broke its service level.

use crate::error::CovenantError;
use crate::limits::{byte_len, fits, MAX_DESCRIPTION_LEN};
use crate::provider::Provider;
use crate::pubkey::Pubkey;
use vstd::prelude::*;

verus! {

/// What kind of promise was broken.
#[derive(Debug, Clone, Copy, PartialEq, Eq, Hash, Structural)]
pub enum ViolationType {
    UptimeViolation,
    ResponseTimeViolation,
    AccuracyViolation,
    ServiceUnavailable,
    Other,
}

/// One reported violation. It is open until it is slashed, and resolved
/// ever after.
#[derive(Debug, Clone, PartialEq, Eq)]
pub struct Violation {
    /// Where the record of the accused provider is kept.
    pub provider: Pubkey,
    /// Who reported the violation, and gets the penalty.
    pub reporter: Pubkey,
    /// The place of the report among all reports against the provider,
    /// counted from zero.
    pub index: u64,
    pub violation_type: ViolationType,
    /// A digest of the evidence, which is kept elsewhere.
    pub evidence_hash: [u8; 32],
    /// At most 512 bytes.
    pub description: String,
    /// When the violation was reported.
    pub timestamp: i64,
    /// Whether the violation has been slashed.
    pub is_resolved: bool,
    /// The bump seed of the place where the record is kept.
    pub bump: u8,
}

impl Violation {
    /// The record keeps within its limits.
    pub open spec fn well_formed(self) -> bool {
        byte_len(self.description@) <= MAX_DESCRIPTION_LEN
    }

    /// The record once the violation has been slashed.
    pub open spec fn resolved(self) -> Violation {
        Violation { is_resolved: true, ..self }
    }
}

/// What a report works on: the accused provider, the place for the new
/// record, and who reports.
#[derive(Debug, Clone, PartialEq, Eq)]
pub struct ReportViolation {
    pub provider: Provider,
    /// Where the record of `provider` is kept.
    pub provider_key: Pubkey,
    /// The place for the violation: empty before the report.
    pub violation: Option<Violation>,
    /// Who reports. Anyone may.
    pub reporter: Pubkey,
    /// The bump seed of the place where the record will be kept.
    pub bump: u8,
}

impl ReportViolation {
    /// Why the report is refused, if it is. The first reason that applies
    /// counts.
    pub open spec fn rejection(self, description: Seq<char>) -> Option<CovenantError> {
        if !self.provider.is_active {
            Some(CovenantError::ProviderInactive)
        } else if byte_len(description) > MAX_DESCRIPTION_LEN {
            Some(CovenantError::DescriptionTooLong)
        } else if self.violation is Some {
            Some(CovenantError::AlreadyExists)
        } else if self.provider.violations == u64::MAX {
            Some(CovenantError::ArithmeticOverflow)
        } else {
            None
        }
    }

    /// The records after the report.
    pub open spec fn outcome(
        self,
        violation_type: ViolationType,
        evidence_hash: [u8; 32],
        description: String,
        now: i64,
    ) -> ReportViolation {
        ReportViolation {
            provider: self.provider.after_report(),
            violation: Some(
                Violation {
                    provider: self.provider_key,
                    reporter: self.reporter,
                    index: self.provider.violations,
                    violation_type,
                    evidence_hash,
                    description,
                    timestamp: now,
                    is_resolved: false,
                    bump: self.bump,
                },
            ),
            ..self
        }
    }
}

/// Reports a violation against a provider, at time `now`.
///
/// The report is refused, with nothing changed, in this order: with
/// `ProviderInactive` if the provider is not active; with
/// `DescriptionTooLong` if the description has more than 512 bytes; with
/// `AlreadyExists` if the place for the violation is taken; with
/// `ArithmeticOverflow` if the provider's count of violations is at its
/// largest value.
///
/// Otherwise the violation is created, open, in the name of the reporter and
/// with the provider's count of violations as its index, and the count goes
/// up by one.
pub fn report_violation(
    ctx: &mut ReportViolation,
    violation_type: ViolationType,
    evidence_hash: [u8; 32],
    description: String,
    now: i64,
) -> (r: Result<(), CovenantError>)
    ensures
        match r {
            Ok(()) => {
                &&& old(ctx).rejection(description@) is None
                &&& *final(ctx) == old(ctx).outcome(
                    violation_type,
                    evidence_hash,
                    description,
                    now,
                )
            },
            Err(e) => old(ctx).rejection(description@) == Some(e) && *final(ctx) == *old(ctx),
        },
        r is Ok ==> final(ctx).violation is Some && final(ctx).violation->0.well_formed(),
        r is Ok ==> final(ctx).violation->0.index == old(ctx).provider.violations,
        r is Ok ==> final(ctx).provider.violations == old(ctx).provider.violations + 1,
        old(ctx).provider.well_formed() ==> final(ctx).provider.well_formed(),
{
    if !ctx.provider.is_active {
        return Err(CovenantError::ProviderInactive);
    }
    if !fits(&description, MAX_DESCRIPTION_LEN) {
        return Err(CovenantError::DescriptionTooLong);
    }
    if ctx.violation.is_some() {
        return Err(CovenantError::AlreadyExists);
    }
    let index: u64 = ctx.provider.violations;
    match index.checked_add(1) {
        None => {
            return Err(CovenantError::ArithmeticOverflow);
        },
        Some(count) => {
            ctx.provider.violations = count;
        },
    }
    ctx.violation = Some(
        Violation {
            provider: ctx.provider_key,
            reporter: ctx.reporter,
            index,
            violation_type,
            evidence_hash,
            description,
            timestamp: now,
            is_resolved: false,
            bump: ctx.bump,
        },
    );
    Ok(())
}

} // verus!

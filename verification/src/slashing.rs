//! The slashing engine: what a violation costs, and how the penalty is taken.

use crate::error::CovenantError;
use crate::limits::MIN_STAKE;
use crate::provider::Provider;
use crate::pubkey::Pubkey;
use crate::registry::Protocol;
use crate::sla::SLA;
use crate::transfer::Transfer;
use crate::violation::{ReportViolation, Violation, ViolationType};
use vstd::prelude::*;

verus! {

/// The penalty for one violation: `penalty_percentage` percent of the stake,
/// rounded down, and never more than the stake.
pub open spec fn spec_slash_amount(stake_amount: u64, penalty_percentage: u8) -> nat {
    let share = (stake_amount as nat * penalty_percentage as nat) / 100;
    if share <= stake_amount {
        share
    } else {
        stake_amount as nat
    }
}

/// The penalty never exceeds the stake. Up to 100 percent it is the exact
/// share, rounded down; from 100 percent on it is the whole stake.
pub proof fn lemma_slash_amount_within_stake(stake_amount: u64, penalty_percentage: u8)
    ensures
        spec_slash_amount(stake_amount, penalty_percentage) <= stake_amount,
        penalty_percentage <= 100 ==> spec_slash_amount(stake_amount, penalty_percentage) == (
        stake_amount as nat * penalty_percentage as nat) / 100,
        penalty_percentage >= 100 ==> spec_slash_amount(stake_amount, penalty_percentage)
            == stake_amount,
{
    let s = stake_amount as nat;
    let p = penalty_percentage as nat;
    if p <= 100 {
        assert(s * p <= s * 100) by (nonlinear_arith)
            requires
                p <= 100,
        ;
        assert((s * p) / 100 <= s) by (nonlinear_arith)
            requires
                s * p <= s * 100,
        ;
    }
    if p >= 100 {
        assert(s * p >= s * 100) by (nonlinear_arith)
            requires
                p >= 100,
        ;
        assert((s * p) / 100 >= s) by (nonlinear_arith)
            requires
                s * p >= s * 100,
        ;
    }
}

/// Computes the penalty for one violation.
pub fn slash_amount(stake_amount: u64, penalty_percentage: u8) -> (amount: u64)
    ensures
        amount == spec_slash_amount(stake_amount, penalty_percentage),
        amount <= stake_amount,
{
    assert(stake_amount as nat * penalty_percentage as nat <= u128::MAX) by (nonlinear_arith)
        requires
            stake_amount <= u64::MAX,
            penalty_percentage <= u8::MAX,
    ;
    let product: u128 = (stake_amount as u128) * (penalty_percentage as u128);
    let share: u128 = product / 100;
    if share <= stake_amount as u128 {
        share as u64
    } else {
        stake_amount
    }
}

/// What a slash works on: the registry, the provider with its service level,
/// the violation to resolve, and who is asking.
#[derive(Debug, Clone, PartialEq, Eq)]
pub struct Slash {
    pub protocol: Protocol,
    pub provider: Provider,
    /// Where the record of `provider` is kept.
    pub provider_key: Pubkey,
    pub sla: SLA,
    pub violation: Violation,
    /// Where the provider's stake is pooled.
    pub stake_vault: Pubkey,
    /// Who asks for the slash, and is paid the penalty.
    pub reporter: Pubkey,
}

impl Slash {
    /// The service level and the violation are those of the provider, and the
    /// violation is the latest reported against it.
    pub open spec fn addresses_latest_violation(self) -> bool {
        &&& self.sla.provider == self.provider_key
        &&& self.violation.provider == self.provider_key
        &&& self.violation.index + 1 == self.provider.violations
    }

    /// The penalty that this slash takes.
    pub open spec fn amount(self) -> u64 {
        spec_slash_amount(self.provider.stake_amount, self.sla.penalty_percentage) as u64
    }

    /// Why the slash is refused, if it is. The first reason that applies
    /// counts.
    pub open spec fn rejection(self) -> Option<CovenantError> {
        if self.violation.is_resolved {
            Some(CovenantError::ViolationAlreadyResolved)
        } else if self.provider.stake_amount == 0 {
            Some(CovenantError::NoStakeToSlash)
        } else if !self.addresses_latest_violation() {
            Some(CovenantError::RecordMismatch)
        } else if self.violation.reporter != self.reporter {
            Some(CovenantError::Unauthorized)
        } else if !self.protocol.can_record_slash(self.amount()) {
            Some(CovenantError::ArithmeticOverflow)
        } else {
            None
        }
    }

    /// The records after the slash.
    pub open spec fn outcome(self) -> Slash {
        Slash {
            protocol: self.protocol.after_slash(self.amount()),
            provider: self.provider.after_slash(self.amount()),
            violation: self.violation.resolved(),
            ..self
        }
    }

    /// The payment that goes with the slash: the penalty, from the pooled
    /// stake to the reporter.
    pub open spec fn transfer(self) -> Transfer {
        Transfer { from: self.stake_vault, to: self.reporter, amount: self.amount() }
    }
}

/// Resolves a violation by taking the penalty of the provider's service level
/// from its stake.
///
/// The slash is refused, with nothing changed, in this order: with
/// `ViolationAlreadyResolved` if the violation was slashed before; with
/// `NoStakeToSlash` if the provider has nothing staked; with `RecordMismatch`
/// if the service level or the violation belongs to another provider or the
/// violation is not the latest against this one; with `Unauthorized` if the
/// caller is not the one who reported it; with `ArithmeticOverflow` if the
/// registry cannot count the penalty.
///
/// Otherwise the penalty leaves the provider's stake and the registry's
/// staked total and joins the registry's slashed total, the violation is
/// resolved, and a provider left below the minimum stake is deactivated. The
/// transfer handed back pays the penalty from the pooled stake to the
/// reporter.
pub fn slash(ctx: &mut Slash) -> (r: Result<Transfer, CovenantError>)
    ensures
        match r {
            Ok(transfer) => {
                &&& old(ctx).rejection() is None
                &&& *final(ctx) == old(ctx).outcome()
                &&& transfer == old(ctx).transfer()
            },
            Err(e) => old(ctx).rejection() == Some(e) && *final(ctx) == *old(ctx),
        },
        old(ctx).violation.is_resolved ==> r == Err::<Transfer, CovenantError>(
            CovenantError::ViolationAlreadyResolved,
        ),
        !old(ctx).violation.is_resolved && old(ctx).provider.stake_amount == 0 ==> r == Err::<
            Transfer,
            CovenantError,
        >(CovenantError::NoStakeToSlash),
        r matches Ok(transfer) ==> {
            &&& transfer.amount == spec_slash_amount(
                old(ctx).provider.stake_amount,
                old(ctx).sla.penalty_percentage,
            )
            &&& transfer.to == old(ctx).violation.reporter
            &&& final(ctx).provider.stake_amount + transfer.amount == old(
                ctx,
            ).provider.stake_amount
            &&& final(ctx).protocol.total_staked + transfer.amount == old(
                ctx,
            ).protocol.total_staked
            &&& final(ctx).protocol.total_slashed == old(ctx).protocol.total_slashed
                + transfer.amount
            &&& final(ctx).protocol.total_providers == old(ctx).protocol.total_providers
        },
        r is Ok ==> final(ctx).violation.is_resolved,
        r is Ok ==> final(ctx).provider.upholds_min_stake(),
        r is Ok && old(ctx).provider.well_formed() ==> final(ctx).provider.well_formed(),
{
    if ctx.violation.is_resolved {
        return Err(CovenantError::ViolationAlreadyResolved);
    }
    if ctx.provider.stake_amount == 0 {
        return Err(CovenantError::NoStakeToSlash);
    }
    if ctx.sla.provider != ctx.provider_key || ctx.violation.provider != ctx.provider_key
        || ctx.provider.violations == 0 || ctx.violation.index != ctx.provider.violations - 1 {
        return Err(CovenantError::RecordMismatch);
    }
    if ctx.violation.reporter != ctx.reporter {
        return Err(CovenantError::Unauthorized);
    }
    let amount = slash_amount(ctx.provider.stake_amount, ctx.sla.penalty_percentage);
    match ctx.protocol.record_slash(amount) {
        Err(e) => {
            return Err(e);
        },
        Ok(()) => {},
    }
    ctx.provider.stake_amount = ctx.provider.stake_amount - amount;
    if ctx.provider.stake_amount < MIN_STAKE {
        ctx.provider.is_active = false;
    }
    ctx.violation.is_resolved = true;
    Ok(Transfer { from: ctx.stake_vault, to: ctx.reporter, amount })
}

/// A violation is slashed at most once: once a slash has succeeded, every
/// slash that is handed the violation as that slash left it is refused with
/// `ViolationAlreadyResolved`, whatever the other records are.
pub proof fn lemma_slash_is_final(first: Slash, second: Slash)
    requires
        first.rejection() is None,
        second.violation == first.outcome().violation,
    ensures
        second.rejection() == Some(CovenantError::ViolationAlreadyResolved),
{
}

/// Reports against one provider are numbered in the order in which they are
/// made: a report that works on the provider's record as the report before
/// left it gets the next index.
pub proof fn lemma_reports_are_numbered_in_order(
    first: ReportViolation,
    first_type: ViolationType,
    first_hash: [u8; 32],
    first_description: String,
    first_now: i64,
    second: ReportViolation,
    second_type: ViolationType,
    second_hash: [u8; 32],
    second_description: String,
    second_now: i64,
)
    requires
        first.rejection(first_description@) is None,
        second.provider == first.outcome(
            first_type,
            first_hash,
            first_description,
            first_now,
        ).provider,
        second.rejection(second_description@) is None,
    ensures
        first.outcome(first_type, first_hash, first_description, first_now).violation->0.index
            == first.provider.violations,
        second.outcome(second_type, second_hash, second_description, second_now).violation->0.index
            == first.provider.violations + 1,
{
}

/// A slash addresses the provider's newest violation: handed the records as
/// a report left them, with the provider's own service level, it is not
/// refused as a mismatch; handed an older violation of the provider, it is.
pub proof fn lemma_slash_addresses_newest_report(
    report: ReportViolation,
    violation_type: ViolationType,
    evidence_hash: [u8; 32],
    description: String,
    now: i64,
    slash: Slash,
)
    requires
        report.rejection(description@) is None,
        slash.provider == report.outcome(violation_type, evidence_hash, description, now).provider,
        slash.provider_key == report.provider_key,
        slash.sla.provider == report.provider_key,
        slash.violation.provider == report.provider_key,
    ensures
        slash.violation == report.outcome(
            violation_type,
            evidence_hash,
            description,
            now,
        ).violation->0 ==> slash.addresses_latest_violation(),
        slash.violation.index < report.provider.violations
            ==> !slash.addresses_latest_violation(),
        slash.violation.index < report.provider.violations && !slash.violation.is_resolved
            && slash.provider.stake_amount > 0 ==> slash.rejection() == Some(
            CovenantError::RecordMismatch,
        ),
{
}

} // verus!

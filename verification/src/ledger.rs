//! The ledger: every record of a deployment at once, and what holds of it
//! after any run of operations.
//!
//! An operation sees only the records handed to it. The ledger is the
//! mathematical whole from which they are taken and to which they are written
//! back, and it exists in proofs only. The laws at the end of this file say
//! what no run of operations can break: the staked total is the sum of the
//! stakes, no provider is active below the minimum stake, the transfers asked
//! for match the registry, nothing is taken back, and a violation is slashed
//! at most once.

use crate::error::CovenantError;
use crate::limits::MIN_STAKE;
use crate::provider::{Provider, RecordSuccess, RegisterProvider, WithdrawStake};
use crate::registry::{Initialize, Protocol};
use crate::sla::DefineSLA;
use crate::slashing::{lemma_slash_amount_within_stake, Slash};
use crate::violation::{ReportViolation, Violation, ViolationType};
use vstd::prelude::*;

verus! {

/// The registry, once there is one; the records of all providers that ever
/// registered, in the order in which they did; and the records of all
/// violations that were ever reported, in the order in which they were.
pub struct Ledger {
    pub protocol: Option<Protocol>,
    pub providers: Seq<Provider>,
    pub violations: Seq<Violation>,
}

/// One operation, run on records of the ledger. `slot` says which provider's
/// record the operation was handed, `case` which violation's.
pub enum Step {
    Initialize { ctx: Initialize },
    RegisterProvider {
        ctx: RegisterProvider,
        name: String,
        service_endpoint: String,
        stake_amount: u64,
        now: i64,
    },
    DefineSLA {
        slot: int,
        ctx: DefineSLA,
        uptime_guarantee: u8,
        max_response_time_ms: u32,
        accuracy_guarantee: u8,
        penalty_percentage: u8,
        now: i64,
    },
    ReportViolation {
        slot: int,
        ctx: ReportViolation,
        violation_type: ViolationType,
        evidence_hash: [u8; 32],
        description: String,
        now: i64,
    },
    Slash { slot: int, case: int, ctx: Slash },
    RecordSuccess { slot: int, ctx: RecordSuccess },
    WithdrawStake { slot: int, ctx: WithdrawStake, amount: u64 },
}

/// The sum of what the providers have staked.
pub open spec fn total_stake(providers: Seq<Provider>) -> nat
    decreases providers.len(),
{
    if providers.len() == 0 {
        0
    } else {
        total_stake(providers.drop_last()) + providers.last().stake_amount as nat
    }
}

/// How many of the providers are active.
pub open spec fn active_count(providers: Seq<Provider>) -> nat
    decreases providers.len(),
{
    if providers.len() == 0 {
        0
    } else {
        active_count(providers.drop_last()) + if providers.last().is_active {
            1nat
        } else {
            0nat
        }
    }
}

impl Ledger {
    /// The ledger of a deployment on which nothing has run yet.
    pub open spec fn empty() -> Ledger {
        Ledger { protocol: None, providers: Seq::empty(), violations: Seq::empty() }
    }

    /// The record in `slot` is `provider`.
    pub open spec fn holds(self, slot: int, provider: Provider) -> bool {
        0 <= slot < self.providers.len() && self.providers[slot] == provider
    }

    /// The violation filed as `case` is `violation`.
    pub open spec fn files(self, case: int, violation: Violation) -> bool {
        0 <= case < self.violations.len() && self.violations[case] == violation
    }

    /// The ledger with the registry and the record in `slot` written back.
    pub open spec fn with(self, protocol: Protocol, slot: int, provider: Provider) -> Ledger {
        Ledger {
            protocol: Some(protocol),
            providers: self.providers.update(slot, provider),
            ..self
        }
    }

    /// Whether `step` was handed the records of this ledger and is not
    /// refused.
    pub open spec fn accepts(self, step: Step) -> bool {
        match step {
            Step::Initialize { ctx } => ctx.protocol == self.protocol && ctx.rejection() is None,
            Step::RegisterProvider { ctx, name, service_endpoint, stake_amount, now } => {
                &&& self.protocol == Some(ctx.protocol)
                &&& ctx.rejection(name@, service_endpoint@, stake_amount) is None
            },
            Step::DefineSLA {
                slot,
                ctx,
                uptime_guarantee,
                max_response_time_ms,
                accuracy_guarantee,
                penalty_percentage,
                now,
            } => {
                &&& self.holds(slot, ctx.provider)
                &&& ctx.rejection(uptime_guarantee, accuracy_guarantee, penalty_percentage) is None
            },
            Step::ReportViolation {
                slot,
                ctx,
                violation_type,
                evidence_hash,
                description,
                now,
            } => self.holds(slot, ctx.provider) && ctx.rejection(description@) is None,
            Step::Slash { slot, case, ctx } => {
                &&& self.protocol == Some(ctx.protocol)
                &&& self.holds(slot, ctx.provider)
                &&& self.files(case, ctx.violation)
                &&& ctx.rejection() is None
            },
            Step::RecordSuccess { slot, ctx } => {
                self.holds(slot, ctx.provider) && ctx.rejection() is None
            },
            Step::WithdrawStake { slot, ctx, amount } => {
                &&& self.protocol == Some(ctx.protocol)
                &&& self.holds(slot, ctx.provider)
                &&& ctx.rejection(amount) is None
            },
        }
    }

    /// Whether `step` is a slash of the violation filed as `case` that this
    /// ledger accepts.
    pub open spec fn slashes(self, step: Step, case: int) -> bool {
        step matches Step::Slash { case: slashed, .. } && slashed == case && self.accepts(step)
    }

    /// The ledger after one operation. An operation that was handed records
    /// that are not those of the ledger, or that is refused, leaves the
    /// ledger as it is.
    pub open spec fn step(self, step: Step) -> Ledger {
        if !self.accepts(step) {
            self
        } else {
            match step {
                Step::Initialize { ctx } => Ledger { protocol: ctx.outcome().protocol, ..self },
                Step::RegisterProvider { ctx, name, service_endpoint, stake_amount, now } => {
                    let post = ctx.outcome(name, service_endpoint, stake_amount, now);
                    Ledger {
                        protocol: Some(post.protocol),
                        providers: self.providers.push(post.provider->0),
                        ..self
                    }
                },
                Step::DefineSLA {
                    slot,
                    ctx,
                    uptime_guarantee,
                    max_response_time_ms,
                    accuracy_guarantee,
                    penalty_percentage,
                    now,
                } => {
                    let post = ctx.outcome(
                        uptime_guarantee,
                        max_response_time_ms,
                        accuracy_guarantee,
                        penalty_percentage,
                        now,
                    );
                    Ledger { providers: self.providers.update(slot, post.provider), ..self }
                },
                Step::ReportViolation {
                    slot,
                    ctx,
                    violation_type,
                    evidence_hash,
                    description,
                    now,
                } => {
                    let post = ctx.outcome(violation_type, evidence_hash, description, now);
                    Ledger {
                        providers: self.providers.update(slot, post.provider),
                        violations: self.violations.push(post.violation->0),
                        ..self
                    }
                },
                Step::Slash { slot, case, ctx } => {
                    Ledger {
                        violations: self.violations.update(case, ctx.outcome().violation),
                        ..self.with(ctx.outcome().protocol, slot, ctx.outcome().provider)
                    }
                },
                Step::RecordSuccess { slot, ctx } => {
                    Ledger { providers: self.providers.update(slot, ctx.outcome().provider), ..self }
                },
                Step::WithdrawStake { slot, ctx, amount } => {
                    self.with(ctx.outcome(amount).protocol, slot, ctx.outcome(amount).provider)
                },
            }
        }
    }

    /// What the transfer of `step` pays into the pooled stake; negative for
    /// what it pays out of it. A step that the ledger does not accept pays
    /// nothing.
    pub open spec fn pays_in(self, step: Step) -> int {
        if !self.accepts(step) {
            0
        } else {
            match step {
                Step::RegisterProvider { ctx, stake_amount, .. } => ctx.transfer(
                    stake_amount,
                ).amount as int,
                Step::Slash { ctx, .. } => -(ctx.transfer().amount as int),
                Step::WithdrawStake { ctx, amount, .. } => -(ctx.transfer(amount).amount as int),
                _ => 0,
            }
        }
    }

    /// What the transfer of `step` pays to a reporter as a penalty.
    pub open spec fn pays_penalty(self, step: Step) -> int {
        if !self.accepts(step) {
            0
        } else {
            match step {
                Step::Slash { ctx, .. } => ctx.transfer().amount as int,
                _ => 0,
            }
        }
    }

    /// What the transfers of a run of operations leave in the pooled stake.
    pub open spec fn pooled(self, steps: Seq<Step>) -> int
        decreases steps.len(),
    {
        if steps.len() == 0 {
            0
        } else {
            self.pooled(steps.drop_last()) + self.after(steps.drop_last()).pays_in(steps.last())
        }
    }

    /// What the transfers of a run of operations pay in penalties.
    pub open spec fn penalties(self, steps: Seq<Step>) -> int
        decreases steps.len(),
    {
        if steps.len() == 0 {
            0
        } else {
            self.penalties(steps.drop_last()) + self.after(steps.drop_last()).pays_penalty(
                steps.last(),
            )
        }
    }

    /// The ledger after a run of operations, one after the other.
    pub open spec fn after(self, steps: Seq<Step>) -> Ledger
        decreases steps.len(),
    {
        if steps.len() == 0 {
            self
        } else {
            self.after(steps.drop_last()).step(steps.last())
        }
    }

    /// Conservation: the registry's staked total is the sum of what the
    /// providers have staked. Before there is a registry, there are no
    /// providers.
    pub open spec fn conserved(self) -> bool {
        match self.protocol {
            Some(protocol) => protocol.total_staked == total_stake(self.providers),
            None => self.providers.len() == 0,
        }
    }

    /// Every record keeps within its limits, and no provider is active on
    /// less than the minimum stake.
    pub open spec fn records_well_formed(self) -> bool {
        &&& forall|slot: int|
            0 <= slot < self.providers.len() ==> (#[trigger] self.providers[slot]).well_formed()
        &&& forall|case: int|
            0 <= case < self.violations.len() ==> (#[trigger] self.violations[case]).well_formed()
    }

    /// The registry counts every active provider, and no more providers than
    /// there are.
    pub open spec fn counts_providers(self) -> bool {
        match self.protocol {
            Some(protocol) => active_count(self.providers) <= protocol.total_providers
                <= self.providers.len(),
            None => true,
        }
    }

    /// All that holds of a ledger whatever has run on it.
    pub open spec fn sound(self) -> bool {
        &&& self.conserved()
        &&& self.records_well_formed()
        &&& self.counts_providers()
    }
}

/// One more provider adds its stake to the sum.
proof fn lemma_push(providers: Seq<Provider>, provider: Provider)
    ensures
        total_stake(providers.push(provider)) == total_stake(providers) + provider.stake_amount,
        active_count(providers.push(provider)) == active_count(providers) + if provider.is_active {
            1nat
        } else {
            0nat
        },
{
    assert(providers.push(provider).drop_last() =~= providers);
}

/// A record that is replaced takes its stake out of the sum and puts the new
/// stake in; no record holds more than the sum.
proof fn lemma_update(providers: Seq<Provider>, slot: int, provider: Provider)
    requires
        0 <= slot < providers.len(),
    ensures
        providers[slot].stake_amount <= total_stake(providers),
        total_stake(providers.update(slot, provider)) == total_stake(providers)
            - providers[slot].stake_amount + provider.stake_amount,
        providers[slot].is_active ==> active_count(providers) >= 1,
        active_count(providers.update(slot, provider)) == active_count(providers) - (
        if providers[slot].is_active {
            1int
        } else {
            0int
        }) + (if provider.is_active {
            1int
        } else {
            0int
        }),
    decreases providers.len(),
{
    let updated = providers.update(slot, provider);
    if slot == providers.len() - 1 {
        assert(updated.drop_last() =~= providers.drop_last());
    } else {
        lemma_update(providers.drop_last(), slot, provider);
        assert(updated.drop_last() =~= providers.drop_last().update(slot, provider));
    }
}

/// Soundness survives every operation: an operation run on a sound ledger
/// leaves a sound ledger, whether it succeeds or is refused.
pub proof fn lemma_step_keeps_ledger_sound(ledger: Ledger, step: Step)
    requires
        ledger.sound(),
    ensures
        ledger.step(step).sound(),
{
    let next = ledger.step(step);
    if next != ledger {
        match step {
            Step::Initialize { ctx } => {},
            Step::RegisterProvider { ctx, name, service_endpoint, stake_amount, now } => {
                let post = ctx.outcome(name, service_endpoint, stake_amount, now);
                lemma_push(ledger.providers, post.provider->0);
            },
            Step::DefineSLA { slot, ctx, .. } => {
                lemma_update(ledger.providers, slot, ctx.provider);
            },
            Step::ReportViolation {
                slot,
                ctx,
                violation_type,
                evidence_hash,
                description,
                now,
            } => {
                let post = ctx.outcome(violation_type, evidence_hash, description, now);
                lemma_update(ledger.providers, slot, post.provider);
            },
            Step::Slash { slot, case, ctx } => {
                lemma_update(ledger.providers, slot, ctx.outcome().provider);
            },
            Step::RecordSuccess { slot, ctx } => {
                lemma_update(ledger.providers, slot, ctx.outcome().provider);
            },
            Step::WithdrawStake { slot, ctx, amount } => {
                lemma_update(ledger.providers, slot, ctx.outcome(amount).provider);
            },
        }
    }
}

/// Whatever is run on a new deployment, the ledger stays sound.
pub proof fn lemma_every_run_keeps_ledger_sound(steps: Seq<Step>)
    ensures
        Ledger::empty().after(steps).sound(),
    decreases steps.len(),
{
    if steps.len() > 0 {
        lemma_every_run_keeps_ledger_sound(steps.drop_last());
        lemma_step_keeps_ledger_sound(Ledger::empty().after(steps.drop_last()), steps.last());
    }
}

/// Conservation of stake: after any run of operations on a new deployment,
/// the registry's staked total equals the sum of the stakes of all providers.
pub proof fn lemma_stake_is_conserved(steps: Seq<Step>)
    ensures
        Ledger::empty().after(steps).protocol matches Some(protocol) ==> protocol.total_staked
            == total_stake(Ledger::empty().after(steps).providers),
{
    lemma_every_run_keeps_ledger_sound(steps);
}

/// Enforcement of the minimum stake: after any run of operations on a new
/// deployment, a provider with less than the minimum stake is not active.
pub proof fn lemma_min_stake_is_upheld(steps: Seq<Step>, slot: int)
    requires
        0 <= slot < Ledger::empty().after(steps).providers.len(),
    ensures
        Ledger::empty().after(steps).providers[slot].stake_amount < MIN_STAKE
            ==> !Ledger::empty().after(steps).providers[slot].is_active,
{
    lemma_every_run_keeps_ledger_sound(steps);
    assert(Ledger::empty().after(steps).providers[slot].well_formed());
}

/// On the records of a sound ledger, a withdrawal is never refused because a
/// counter would leave its range: the staked total covers every stake, and
/// the provider count covers every active provider.
pub proof fn lemma_withdrawal_never_overflows(
    ledger: Ledger,
    slot: int,
    ctx: WithdrawStake,
    amount: u64,
)
    requires
        ledger.sound(),
        ledger.protocol == Some(ctx.protocol),
        ledger.holds(slot, ctx.provider),
    ensures
        ctx.rejection(amount) != Some(CovenantError::ArithmeticOverflow),
{
    lemma_update(ledger.providers, slot, ctx.provider);
}

/// On the records of a sound ledger, a slash is refused for want of range
/// only when the total of all penalties would leave the 64-bit range; the
/// staked total always covers the penalty.
pub proof fn lemma_slash_overflows_only_in_penalties(ledger: Ledger, slot: int, ctx: Slash)
    requires
        ledger.sound(),
        ledger.protocol == Some(ctx.protocol),
        ledger.holds(slot, ctx.provider),
    ensures
        ctx.amount() <= ctx.protocol.total_staked,
        ctx.rejection() == Some(CovenantError::ArithmeticOverflow) ==> ctx.protocol.total_slashed
            + ctx.amount() > u64::MAX,
{
    lemma_update(ledger.providers, slot, ctx.provider);
    lemma_slash_amount_within_stake(ctx.provider.stake_amount, ctx.sla.penalty_percentage);
}

/// Nothing is taken back: no operation removes a record or changes who owns
/// it, lowers a count of violations, of successes or of penalties, raises a
/// stake, or makes an inactive provider active again.
pub proof fn lemma_step_never_goes_back(ledger: Ledger, step: Step, slot: int)
    requires
        0 <= slot < ledger.providers.len(),
    ensures
        slot < ledger.step(step).providers.len(),
        ledger.step(step).providers[slot].authority == ledger.providers[slot].authority,
        ledger.step(step).providers[slot].name == ledger.providers[slot].name,
        ledger.step(step).providers[slot].service_endpoint
            == ledger.providers[slot].service_endpoint,
        ledger.step(step).providers[slot].created_at == ledger.providers[slot].created_at,
        ledger.step(step).providers[slot].violations >= ledger.providers[slot].violations,
        ledger.step(step).providers[slot].successful_requests
            >= ledger.providers[slot].successful_requests,
        ledger.step(step).providers[slot].stake_amount <= ledger.providers[slot].stake_amount,
        !ledger.providers[slot].is_active ==> !ledger.step(step).providers[slot].is_active,
        ledger.protocol matches Some(before) ==> {
            &&& ledger.step(step).protocol matches Some(after)
            &&& after.authority == before.authority
            &&& after.total_slashed >= before.total_slashed
        },
{
    match step {
        Step::Slash { slot: slashed, case, ctx } => {
            lemma_slash_amount_within_stake(ctx.provider.stake_amount, ctx.sla.penalty_percentage);
        },
        _ => {},
    }
}

/// The funds follow the books: after any run of operations on a new
/// deployment, what the transfers that were asked for have left in the pooled
/// stake is the registry's staked total, and what they have paid in penalties
/// is the registry's slashed total.
pub proof fn lemma_transfers_match_registry(steps: Seq<Step>)
    ensures
        match Ledger::empty().after(steps).protocol {
            Some(protocol) => {
                &&& Ledger::empty().pooled(steps) == protocol.total_staked
                &&& Ledger::empty().penalties(steps) == protocol.total_slashed
            },
            None => Ledger::empty().pooled(steps) == 0 && Ledger::empty().penalties(steps) == 0,
        },
    decreases steps.len(),
{
    if steps.len() > 0 {
        let before = Ledger::empty().after(steps.drop_last());
        lemma_transfers_match_registry(steps.drop_last());
        lemma_every_run_keeps_ledger_sound(steps.drop_last());
        match steps.last() {
            Step::Slash { slot, case, ctx } => {
                if before.accepts(steps.last()) {
                    lemma_update(before.providers, slot, ctx.provider);
                    lemma_slash_amount_within_stake(
                        ctx.provider.stake_amount,
                        ctx.sla.penalty_percentage,
                    );
                }
            },
            _ => {},
        }
    }
}

/// A violation is never removed, and changes in one way only: a slash that
/// succeeds on it resolves it. Nothing else touches it, and nothing opens it
/// again.
pub proof fn lemma_violation_changes_only_by_its_slash(ledger: Ledger, step: Step, case: int)
    requires
        0 <= case < ledger.violations.len(),
    ensures
        case < ledger.step(step).violations.len(),
        ledger.slashes(step, case) ==> !ledger.violations[case].is_resolved && ledger.step(
            step,
        ).violations[case] == ledger.violations[case].resolved(),
        !ledger.slashes(step, case) ==> ledger.step(step).violations[case]
            == ledger.violations[case],
{
}

/// A violation is slashed at most once: once it is resolved, no run of
/// operations changes its record, and no slash of it succeeds ever after.
pub proof fn lemma_resolved_violation_is_never_slashed_again(
    ledger: Ledger,
    steps: Seq<Step>,
    step: Step,
    case: int,
)
    requires
        0 <= case < ledger.violations.len(),
        ledger.violations[case].is_resolved,
    ensures
        case < ledger.after(steps).violations.len(),
        ledger.after(steps).violations[case] == ledger.violations[case],
        !ledger.after(steps).slashes(step, case),
    decreases steps.len(),
{
    if steps.len() > 0 {
        let before = ledger.after(steps.drop_last());
        lemma_resolved_violation_is_never_slashed_again(
            ledger,
            steps.drop_last(),
            steps.last(),
            case,
        );
        lemma_violation_changes_only_by_its_slash(before, steps.last(), case);
    }
}

} // verus!

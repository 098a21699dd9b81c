//! Service levels: what a provider commits to, and what a violation costs.

use crate::error::CovenantError;
use crate::provider::Provider;
use crate::pubkey::Pubkey;
use vstd::prelude::*;

verus! {

/// The service level a provider has committed to.
#[derive(Debug, Clone, Copy, PartialEq, Eq)]
pub struct SLA {
    /// Where the record of the provider is kept.
    pub provider: Pubkey,
    /// Promised uptime, in percent.
    pub uptime_guarantee: u8,
    /// Promised longest response time, in milliseconds.
    pub max_response_time_ms: u32,
    /// Promised accuracy, in percent.
    pub accuracy_guarantee: u8,
    /// The share of the stake, in percent, that one violation costs.
    pub penalty_percentage: u8,
    /// When the service level was defined.
    pub created_at: i64,
    /// Whether the service level is in force.
    pub is_active: bool,
    /// The bump seed of the place where the record is kept.
    pub bump: u8,
}

/// Whether the three percentages of a service level are in range: the
/// guarantees at most 100, the penalty between 1 and 100.
pub open spec fn percentages_in_range(
    uptime_guarantee: u8,
    accuracy_guarantee: u8,
    penalty_percentage: u8,
) -> bool {
    &&& uptime_guarantee <= 100
    &&& accuracy_guarantee <= 100
    &&& 1 <= penalty_percentage <= 100
}

impl SLA {
    /// The percentages of the record are in range.
    pub open spec fn well_formed(self) -> bool {
        percentages_in_range(
            self.uptime_guarantee,
            self.accuracy_guarantee,
            self.penalty_percentage,
        )
    }
}

/// What defining a service level works on: the provider, the place for the
/// new record, and who is asking.
#[derive(Debug, Clone, PartialEq, Eq)]
pub struct DefineSLA {
    pub provider: Provider,
    /// Where the record of `provider` is kept.
    pub provider_key: Pubkey,
    /// The place for the service level: empty before it is defined.
    pub sla: Option<SLA>,
    /// Who defines the service level.
    pub authority: Pubkey,
    /// The bump seed of the place where the record will be kept.
    pub bump: u8,
}

impl DefineSLA {
    /// Why the definition is refused, if it is. The first reason that applies
    /// counts.
    pub open spec fn rejection(
        self,
        uptime_guarantee: u8,
        accuracy_guarantee: u8,
        penalty_percentage: u8,
    ) -> Option<CovenantError> {
        if !percentages_in_range(uptime_guarantee, accuracy_guarantee, penalty_percentage) {
            Some(CovenantError::InvalidPercentage)
        } else if self.provider.authority != self.authority {
            Some(CovenantError::Unauthorized)
        } else if self.sla is Some {
            Some(CovenantError::AlreadyExists)
        } else {
            None
        }
    }

    /// The records after the definition.
    pub open spec fn outcome(
        self,
        uptime_guarantee: u8,
        max_response_time_ms: u32,
        accuracy_guarantee: u8,
        penalty_percentage: u8,
        now: i64,
    ) -> DefineSLA {
        DefineSLA {
            sla: Some(
                SLA {
                    provider: self.provider_key,
                    uptime_guarantee,
                    max_response_time_ms,
                    accuracy_guarantee,
                    penalty_percentage,
                    created_at: now,
                    is_active: true,
                    bump: self.bump,
                },
            ),
            ..self
        }
    }
}

/// Defines the service level of a provider, at time `now`.
///
/// The definition is refused, with nothing changed, in this order: with
/// `InvalidPercentage` if a guarantee is above 100 or the penalty is not
/// between 1 and 100; with `Unauthorized` if the caller does not own the
/// provider's record; with `AlreadyExists` if the place for the service level
/// is taken.
///
/// Otherwise the service level is created, in force and bound to the
/// provider.
pub fn define_sla(
    ctx: &mut DefineSLA,
    uptime_guarantee: u8,
    max_response_time_ms: u32,
    accuracy_guarantee: u8,
    penalty_percentage: u8,
    now: i64,
) -> (r: Result<(), CovenantError>)
    ensures
        match r {
            Ok(()) => {
                &&& old(ctx).rejection(uptime_guarantee, accuracy_guarantee, penalty_percentage)
                    is None
                &&& *final(ctx) == old(ctx).outcome(
                    uptime_guarantee,
                    max_response_time_ms,
                    accuracy_guarantee,
                    penalty_percentage,
                    now,
                )
            },
            Err(e) => {
                &&& old(ctx).rejection(uptime_guarantee, accuracy_guarantee, penalty_percentage)
                    == Some(e)
                &&& *final(ctx) == *old(ctx)
            },
        },
        r is Ok ==> old(ctx).authority == old(ctx).provider.authority,
        r is Ok ==> final(ctx).sla is Some && final(ctx).sla->0.well_formed(),
{
    if uptime_guarantee > 100 || accuracy_guarantee > 100 || penalty_percentage == 0
        || penalty_percentage > 100 {
        return Err(CovenantError::InvalidPercentage);
    }
    if ctx.provider.authority != ctx.authority {
        return Err(CovenantError::Unauthorized);
    }
    if ctx.sla.is_some() {
        return Err(CovenantError::AlreadyExists);
    }
    ctx.sla = Some(
        SLA {
            provider: ctx.provider_key,
            uptime_guarantee,
            max_response_time_ms,
            accuracy_guarantee,
            penalty_percentage,
            created_at: now,
            is_active: true,
            bump: ctx.bump,
        },
    );
    Ok(())
}

} // verus!

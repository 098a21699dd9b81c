//! The protocol registry: the one record that counts providers, staked funds
//! and penalties over the whole deployment.

use crate::error::CovenantError;
use crate::pubkey::Pubkey;
use vstd::prelude::*;

verus! {

/// The totals of the whole deployment.
#[derive(Debug, Clone, Copy, PartialEq, Eq)]
pub struct Protocol {
    /// Who set the protocol up.
    pub authority: Pubkey,
    /// Providers that registered and have not withdrawn their whole stake.
    pub total_providers: u64,
    /// The sum of what all providers have staked now.
    pub total_staked: u64,
    /// Everything that was ever slashed.
    pub total_slashed: u64,
    /// The bump seed of the place where the record is kept.
    pub bump: u8,
}

impl Protocol {
    /// The registry of a new deployment: nothing counted yet.
    pub open spec fn fresh(authority: Pubkey, bump: u8) -> Protocol {
        Protocol { authority, total_providers: 0, total_staked: 0, total_slashed: 0, bump }
    }

    /// Whether one more provider with `stake_amount` can be counted.
    pub open spec fn can_record_registration(self, stake_amount: u64) -> bool {
        &&& self.total_providers + 1 <= u64::MAX
        &&& self.total_staked + stake_amount <= u64::MAX
    }

    /// The registry after one more provider with `stake_amount` was counted.
    pub open spec fn after_registration(self, stake_amount: u64) -> Protocol {
        Protocol {
            total_providers: (self.total_providers + 1) as u64,
            total_staked: (self.total_staked + stake_amount) as u64,
            ..self
        }
    }

    /// Whether a withdrawal of `amount` can be counted, which retires the
    /// provider if `provider_deactivated`.
    pub open spec fn can_record_withdrawal(self, amount: u64, provider_deactivated: bool) -> bool {
        &&& amount <= self.total_staked
        &&& provider_deactivated ==> self.total_providers >= 1
    }

    /// The registry after a withdrawal of `amount` was counted.
    pub open spec fn after_withdrawal(self, amount: u64, provider_deactivated: bool) -> Protocol {
        Protocol {
            total_providers: if provider_deactivated {
                (self.total_providers - 1) as u64
            } else {
                self.total_providers
            },
            total_staked: (self.total_staked - amount) as u64,
            ..self
        }
    }

    /// Whether a penalty of `amount` can be counted.
    pub open spec fn can_record_slash(self, amount: u64) -> bool {
        &&& amount <= self.total_staked
        &&& self.total_slashed + amount <= u64::MAX
    }

    /// The registry after a penalty of `amount` was counted: the amount has
    /// left the staked funds and joined the penalties. The number of
    /// providers stays, even if the penalty deactivated one.
    pub open spec fn after_slash(self, amount: u64) -> Protocol {
        Protocol {
            total_staked: (self.total_staked - amount) as u64,
            total_slashed: (self.total_slashed + amount) as u64,
            ..self
        }
    }

    /// Counts a new provider and its stake.
    ///
    /// Fails, and changes nothing, if a counter would overflow.
    pub(crate) fn record_registration(&mut self, stake_amount: u64) -> (r: Result<
        (),
        CovenantError,
    >)
        ensures
            r is Ok <==> old(self).can_record_registration(stake_amount),
            r is Ok ==> *final(self) == old(self).after_registration(stake_amount),
            r is Err ==> r == Err::<(), CovenantError>(CovenantError::ArithmeticOverflow)
                && *final(self) == *old(self),
    {
        match (self.total_providers.checked_add(1), self.total_staked.checked_add(stake_amount)) {
            (Some(providers), Some(staked)) => {
                self.total_providers = providers;
                self.total_staked = staked;
                Ok(())
            },
            _ => Err(CovenantError::ArithmeticOverflow),
        }
    }

    /// Counts a withdrawal of `amount`; with `provider_deactivated`, the
    /// provider withdrew everything and is counted no longer.
    ///
    /// Fails, and changes nothing, if a counter would drop below zero.
    pub(crate) fn record_withdrawal(&mut self, amount: u64, provider_deactivated: bool) -> (r:
        Result<(), CovenantError>)
        ensures
            r is Ok <==> old(self).can_record_withdrawal(amount, provider_deactivated),
            r is Ok ==> *final(self) == old(self).after_withdrawal(amount, provider_deactivated),
            r is Err ==> r == Err::<(), CovenantError>(CovenantError::ArithmeticOverflow)
                && *final(self) == *old(self),
    {
        let providers = if provider_deactivated {
            self.total_providers.checked_sub(1)
        } else {
            Some(self.total_providers)
        };
        match (providers, self.total_staked.checked_sub(amount)) {
            (Some(providers), Some(staked)) => {
                self.total_providers = providers;
                self.total_staked = staked;
                Ok(())
            },
            _ => Err(CovenantError::ArithmeticOverflow),
        }
    }

    /// Counts a penalty of `amount`.
    ///
    /// Fails, and changes nothing, if a counter would leave its range.
    pub(crate) fn record_slash(&mut self, amount: u64) -> (r: Result<(), CovenantError>)
        ensures
            r is Ok <==> old(self).can_record_slash(amount),
            r is Ok ==> *final(self) == old(self).after_slash(amount),
            r is Err ==> r == Err::<(), CovenantError>(CovenantError::ArithmeticOverflow)
                && *final(self) == *old(self),
    {
        match (self.total_staked.checked_sub(amount), self.total_slashed.checked_add(amount)) {
            (Some(staked), Some(slashed)) => {
                self.total_staked = staked;
                self.total_slashed = slashed;
                Ok(())
            },
            _ => Err(CovenantError::ArithmeticOverflow),
        }
    }
}

/// What setting the protocol up works on: the place for the registry, and
/// who is asking.
#[derive(Debug, Clone, Copy, PartialEq, Eq)]
pub struct Initialize {
    /// The place for the registry: empty before the protocol is set up.
    pub protocol: Option<Protocol>,
    /// Who sets the protocol up.
    pub authority: Pubkey,
    /// The bump seed of the place where the registry will be kept.
    pub bump: u8,
}

impl Initialize {
    /// Why setting the protocol up is refused, if it is.
    pub open spec fn rejection(self) -> Option<CovenantError> {
        if self.protocol is Some {
            Some(CovenantError::AlreadyExists)
        } else {
            None
        }
    }

    /// The records after the protocol was set up.
    pub open spec fn outcome(self) -> Initialize {
        Initialize { protocol: Some(Protocol::fresh(self.authority, self.bump)), ..self }
    }
}

/// Sets the protocol up: creates the registry, in the name of the caller and
/// with nothing counted.
///
/// Refused with `AlreadyExists`, and nothing changed, if there is a registry
/// already.
pub fn initialize(ctx: &mut Initialize) -> (r: Result<(), CovenantError>)
    ensures
        match r {
            Ok(()) => old(ctx).rejection() is None && *final(ctx) == old(ctx).outcome(),
            Err(e) => old(ctx).rejection() == Some(e) && *final(ctx) == *old(ctx),
        },
{
    if ctx.protocol.is_some() {
        return Err(CovenantError::AlreadyExists);
    }
    ctx.protocol = Some(
        Protocol {
            authority: ctx.authority,
            total_providers: 0,
            total_staked: 0,
            total_slashed: 0,
            bump: ctx.bump,
        },
    );
    Ok(())
}

} // verus!

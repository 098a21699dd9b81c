//! Providers: their records, and how a provider registers, earns
//! reputation and takes its stake back.

use crate::error::CovenantError;
use crate::limits::{byte_len, fits, MAX_ENDPOINT_LEN, MAX_NAME_LEN, MIN_STAKE};
use crate::pubkey::Pubkey;
use crate::registry::Protocol;
use crate::transfer::Transfer;
use vstd::prelude::*;

verus! {

/// A registered provider and the collateral behind its service.
#[derive(Debug, Clone, PartialEq, Eq)]
pub struct Provider {
    /// Who owns the record. Never changes.
    pub authority: Pubkey,
    /// At most 64 bytes.
    pub name: String,
    /// At most 256 bytes.
    pub service_endpoint: String,
    /// The collateral held for the provider now.
    pub stake_amount: u64,
    /// How many violations were ever reported against the provider. The next
    /// report gets this number as its index.
    pub violations: u64,
    /// How many successful requests were recorded.
    pub successful_requests: u64,
    /// When the provider registered.
    pub created_at: i64,
    /// Whether the provider may be reported against and may withdraw.
    pub is_active: bool,
    /// The bump seed of the place where the record is kept.
    pub bump: u8,
}

impl Provider {
    /// No provider is active on less than the minimum stake.
    pub open spec fn upholds_min_stake(self) -> bool {
        self.stake_amount < MIN_STAKE ==> !self.is_active
    }

    /// The record keeps within its limits and upholds the minimum stake.
    pub open spec fn well_formed(self) -> bool {
        &&& byte_len(self.name@) <= MAX_NAME_LEN
        &&& byte_len(self.service_endpoint@) <= MAX_ENDPOINT_LEN
        &&& self.upholds_min_stake()
    }

    /// The record of a provider that has just registered.
    pub open spec fn registered(
        authority: Pubkey,
        name: String,
        service_endpoint: String,
        stake_amount: u64,
        now: i64,
        bump: u8,
    ) -> Provider {
        Provider {
            authority,
            name,
            service_endpoint,
            stake_amount,
            violations: 0,
            successful_requests: 0,
            created_at: now,
            is_active: true,
            bump,
        }
    }

    /// The record after a penalty of `amount` was taken from the stake. A
    /// provider left with less than the minimum stake is deactivated.
    pub open spec fn after_slash(self, amount: u64) -> Provider
        recommends
            amount <= self.stake_amount,
    {
        let remaining = (self.stake_amount - amount) as u64;
        Provider {
            stake_amount: remaining,
            is_active: self.is_active && remaining >= MIN_STAKE,
            ..self
        }
    }

    /// The record after `amount` was withdrawn from the stake. A provider
    /// left with nothing is deactivated.
    pub open spec fn after_withdrawal(self, amount: u64) -> Provider
        recommends
            amount <= self.stake_amount,
    {
        let remaining = (self.stake_amount - amount) as u64;
        Provider { stake_amount: remaining, is_active: self.is_active && remaining != 0, ..self }
    }

    /// The record after one more violation was reported.
    pub open spec fn after_report(self) -> Provider
        recommends
            self.violations < u64::MAX,
    {
        Provider { violations: (self.violations + 1) as u64, ..self }
    }

    /// The record after one more successful request was recorded.
    pub open spec fn after_success(self) -> Provider
        recommends
            self.successful_requests < u64::MAX,
    {
        Provider { successful_requests: (self.successful_requests + 1) as u64, ..self }
    }
}

/// What a registration works on: the registry, the place for the new record,
/// and who registers.
#[derive(Debug, Clone, PartialEq, Eq)]
pub struct RegisterProvider {
    pub protocol: Protocol,
    /// The place for the provider's record: empty before the registration.
    pub provider: Option<Provider>,
    /// Where the provider's stake is pooled.
    pub stake_vault: Pubkey,
    /// Who registers, pays the stake and owns the record.
    pub provider_authority: Pubkey,
    /// The bump seed of the place where the record will be kept.
    pub bump: u8,
}

impl RegisterProvider {
    /// Why the registration is refused, if it is. The first reason that
    /// applies counts.
    pub open spec fn rejection(
        self,
        name: Seq<char>,
        service_endpoint: Seq<char>,
        stake_amount: u64,
    ) -> Option<CovenantError> {
        if byte_len(name) > MAX_NAME_LEN {
            Some(CovenantError::NameTooLong)
        } else if byte_len(service_endpoint) > MAX_ENDPOINT_LEN {
            Some(CovenantError::EndpointTooLong)
        } else if stake_amount < MIN_STAKE {
            Some(CovenantError::InsufficientStake)
        } else if self.provider is Some {
            Some(CovenantError::AlreadyExists)
        } else if !self.protocol.can_record_registration(stake_amount) {
            Some(CovenantError::ArithmeticOverflow)
        } else {
            None
        }
    }

    /// The records after the registration.
    pub open spec fn outcome(
        self,
        name: String,
        service_endpoint: String,
        stake_amount: u64,
        now: i64,
    ) -> RegisterProvider {
        RegisterProvider {
            protocol: self.protocol.after_registration(stake_amount),
            provider: Some(
                Provider::registered(
                    self.provider_authority,
                    name,
                    service_endpoint,
                    stake_amount,
                    now,
                    self.bump,
                ),
            ),
            ..self
        }
    }

    /// The payment that goes with the registration: the stake, from the one
    /// who registers to the pool.
    pub open spec fn transfer(self, stake_amount: u64) -> Transfer {
        Transfer { from: self.provider_authority, to: self.stake_vault, amount: stake_amount }
    }
}

/// Registers a provider with `stake_amount` as its collateral, at time `now`.
///
/// The registration is refused, with nothing changed, in this order: with
/// `NameTooLong` if the name has more than 64 bytes; with `EndpointTooLong`
/// if the endpoint has more than 256; with `InsufficientStake` if the stake
/// is below the minimum; with `AlreadyExists` if the place for the record is
/// taken; with `ArithmeticOverflow` if the registry cannot count the
/// provider.
///
/// Otherwise the record is created, active and with no violations or
/// successes, and the registry counts one more provider and its stake. The
/// transfer handed back pays the stake into the pool.
pub fn register_provider(
    ctx: &mut RegisterProvider,
    name: String,
    service_endpoint: String,
    stake_amount: u64,
    now: i64,
) -> (r: Result<Transfer, CovenantError>)
    ensures
        match r {
            Ok(transfer) => {
                &&& old(ctx).rejection(name@, service_endpoint@, stake_amount) is None
                &&& *final(ctx) == old(ctx).outcome(name, service_endpoint, stake_amount, now)
                &&& transfer == old(ctx).transfer(stake_amount)
            },
            Err(e) => {
                &&& old(ctx).rejection(name@, service_endpoint@, stake_amount) == Some(e)
                &&& *final(ctx) == *old(ctx)
            },
        },
        r is Ok ==> final(ctx).provider is Some && final(ctx).provider->0.well_formed(),
        r is Ok ==> final(ctx).protocol.total_staked == old(ctx).protocol.total_staked
            + stake_amount,
        r is Ok ==> final(ctx).protocol.total_providers == old(ctx).protocol.total_providers + 1,
{
    if !fits(&name, MAX_NAME_LEN) {
        return Err(CovenantError::NameTooLong);
    }
    if !fits(&service_endpoint, MAX_ENDPOINT_LEN) {
        return Err(CovenantError::EndpointTooLong);
    }
    if stake_amount < MIN_STAKE {
        return Err(CovenantError::InsufficientStake);
    }
    if ctx.provider.is_some() {
        return Err(CovenantError::AlreadyExists);
    }
    match ctx.protocol.record_registration(stake_amount) {
        Err(e) => {
            return Err(e);
        },
        Ok(()) => {},
    }
    ctx.provider = Some(
        Provider {
            authority: ctx.provider_authority,
            name,
            service_endpoint,
            stake_amount,
            violations: 0,
            successful_requests: 0,
            created_at: now,
            is_active: true,
            bump: ctx.bump,
        },
    );
    Ok(Transfer { from: ctx.provider_authority, to: ctx.stake_vault, amount: stake_amount })
}

/// What recording a success works on: the provider, and who is asking.
#[derive(Debug, Clone, PartialEq, Eq)]
pub struct RecordSuccess {
    pub provider: Provider,
    /// Who records the success. Anyone may.
    pub caller: Pubkey,
}

impl RecordSuccess {
    /// Why the success is not recorded, if it is not.
    pub open spec fn rejection(self) -> Option<CovenantError> {
        if self.provider.successful_requests == u64::MAX {
            Some(CovenantError::ArithmeticOverflow)
        } else {
            None
        }
    }

    /// The records after the success was recorded.
    pub open spec fn outcome(self) -> RecordSuccess {
        RecordSuccess { provider: self.provider.after_success(), ..self }
    }
}

/// Records one more successful request of the provider, whoever asks.
///
/// Refused with `ArithmeticOverflow`, and nothing changed, only if the
/// counter is at its largest value.
pub fn record_success(ctx: &mut RecordSuccess) -> (r: Result<(), CovenantError>)
    ensures
        match r {
            Ok(()) => old(ctx).rejection() is None && *final(ctx) == old(ctx).outcome(),
            Err(e) => old(ctx).rejection() == Some(e) && *final(ctx) == *old(ctx),
        },
        r is Ok ==> final(ctx).provider.successful_requests == old(
            ctx,
        ).provider.successful_requests + 1,
        old(ctx).provider.well_formed() ==> final(ctx).provider.well_formed(),
{
    match ctx.provider.successful_requests.checked_add(1) {
        Some(count) => {
            ctx.provider.successful_requests = count;
            Ok(())
        },
        None => Err(CovenantError::ArithmeticOverflow),
    }
}

/// What a withdrawal works on: the registry, the provider, and who is
/// asking.
#[derive(Debug, Clone, PartialEq, Eq)]
pub struct WithdrawStake {
    pub protocol: Protocol,
    pub provider: Provider,
    /// Where the provider's stake is pooled.
    pub stake_vault: Pubkey,
    /// Who asks for the withdrawal, and is paid.
    pub provider_authority: Pubkey,
    /// Who is presented as the owner of the provider's record.
    pub authority: Pubkey,
}

impl WithdrawStake {
    /// The one who asks and the one presented as owner are both the owner of
    /// the provider's record.
    pub open spec fn authorized(self) -> bool {
        &&& self.provider.authority == self.authority
        &&& self.provider.authority == self.provider_authority
    }

    /// Why the withdrawal is refused, if it is. The first reason that applies
    /// counts.
    pub open spec fn rejection(self, amount: u64) -> Option<CovenantError> {
        if !self.provider.is_active {
            Some(CovenantError::ProviderInactive)
        } else if amount > self.provider.stake_amount {
            Some(CovenantError::InsufficientStake)
        } else if 0 < self.provider.stake_amount - amount < MIN_STAKE {
            Some(CovenantError::WouldBreachMinStake)
        } else if !self.authorized() {
            Some(CovenantError::Unauthorized)
        } else if !self.protocol.can_record_withdrawal(
            amount,
            amount == self.provider.stake_amount,
        ) {
            Some(CovenantError::ArithmeticOverflow)
        } else {
            None
        }
    }

    /// The records after the withdrawal.
    pub open spec fn outcome(self, amount: u64) -> WithdrawStake {
        WithdrawStake {
            protocol: self.protocol.after_withdrawal(amount, amount == self.provider.stake_amount),
            provider: self.provider.after_withdrawal(amount),
            ..self
        }
    }

    /// The payment that goes with the withdrawal: the amount, from the pool
    /// to the provider's owner.
    pub open spec fn transfer(self, amount: u64) -> Transfer {
        Transfer { from: self.stake_vault, to: self.provider_authority, amount }
    }
}

/// Takes `amount` out of the provider's stake.
///
/// The withdrawal is refused, with nothing changed, in this order: with
/// `ProviderInactive` if the provider is not active; with `InsufficientStake`
/// if the amount is more than the stake; with `WouldBreachMinStake` if what
/// is left would be neither zero nor at least the minimum stake; with
/// `Unauthorized` if the caller does not own the provider's record; with
/// `ArithmeticOverflow` if the registry cannot count the withdrawal.
///
/// Otherwise the amount leaves the provider's stake and the registry's staked
/// total. A provider that has withdrawn everything is deactivated and counted
/// no longer. The transfer handed back pays the amount from the pool to the
/// provider's owner.
pub fn withdraw_stake(ctx: &mut WithdrawStake, amount: u64) -> (r: Result<Transfer, CovenantError>)
    ensures
        match r {
            Ok(transfer) => {
                &&& old(ctx).rejection(amount) is None
                &&& *final(ctx) == old(ctx).outcome(amount)
                &&& transfer == old(ctx).transfer(amount)
            },
            Err(e) => old(ctx).rejection(amount) == Some(e) && *final(ctx) == *old(ctx),
        },
        r matches Ok(transfer) ==> transfer.to == old(ctx).provider.authority,
        r is Ok ==> {
            &&& final(ctx).provider.stake_amount + amount == old(ctx).provider.stake_amount
            &&& final(ctx).protocol.total_staked + amount == old(ctx).protocol.total_staked
            &&& final(ctx).provider.is_active == (final(ctx).provider.stake_amount != 0)
            &&& final(ctx).protocol.total_providers == old(ctx).protocol.total_providers - (
            if final(ctx).provider.stake_amount == 0 {
                1int
            } else {
                0int
            })
        },
        r is Ok ==> final(ctx).provider.upholds_min_stake(),
        r is Ok && old(ctx).provider.well_formed() ==> final(ctx).provider.well_formed(),
{
    if !ctx.provider.is_active {
        return Err(CovenantError::ProviderInactive);
    }
    if amount > ctx.provider.stake_amount {
        return Err(CovenantError::InsufficientStake);
    }
    let remaining: u64 = ctx.provider.stake_amount - amount;
    if remaining > 0 && remaining < MIN_STAKE {
        return Err(CovenantError::WouldBreachMinStake);
    }
    if ctx.provider.authority != ctx.authority || ctx.provider.authority
        != ctx.provider_authority {
        return Err(CovenantError::Unauthorized);
    }
    match ctx.protocol.record_withdrawal(amount, remaining == 0) {
        Err(e) => {
            return Err(e);
        },
        Ok(()) => {},
    }
    ctx.provider.stake_amount = remaining;
    if remaining == 0 {
        ctx.provider.is_active = false;
    }
    Ok(Transfer { from: ctx.stake_vault, to: ctx.provider_authority, amount })
}

} // verus!

use covenant::{
    define_sla, initialize, register_provider, report_violation, slash, withdraw_stake,
    CovenantError, DefineSLA, Initialize, Protocol, Provider, Pubkey, RegisterProvider,
    ReportViolation, Slash, Transfer, Violation, ViolationType, WithdrawStake, MIN_STAKE, SLA,
};

fn key(tag: u8) -> Pubkey {
    Pubkey::new_from_array([tag; 32])
}

const OWNER: u8 = 1;
const VAULT: u8 = 2;
const PROVIDER_KEY: u8 = 3;
const REPORTER: u8 = 4;

fn fresh_protocol() -> Protocol {
    let mut ctx = Initialize { protocol: None, authority: key(9), bump: 254 };
    assert_eq!(initialize(&mut ctx), Ok(()));
    ctx.protocol.unwrap()
}

fn registered(protocol: Protocol, stake: u64) -> (Protocol, Provider) {
    let mut ctx = RegisterProvider {
        protocol,
        provider: None,
        stake_vault: key(VAULT),
        provider_authority: key(OWNER),
        bump: 253,
    };
    let transfer =
        register_provider(&mut ctx, "oracle".to_string(), "https://o.example".to_string(), stake, 10);
    assert_eq!(transfer, Ok(Transfer { from: key(OWNER), to: key(VAULT), amount: stake }));
    (ctx.protocol, ctx.provider.unwrap())
}

fn with_sla(provider: Provider, penalty: u8) -> (Provider, SLA) {
    let mut ctx = DefineSLA {
        provider,
        provider_key: key(PROVIDER_KEY),
        sla: None,
        authority: key(OWNER),
        bump: 252,
    };
    assert_eq!(define_sla(&mut ctx, 99, 250, 95, penalty, 20), Ok(()));
    (ctx.provider, ctx.sla.unwrap())
}

fn reported(provider: Provider, now: i64) -> (Provider, Violation) {
    let mut ctx = ReportViolation {
        provider,
        provider_key: key(PROVIDER_KEY),
        violation: None,
        reporter: key(REPORTER),
        bump: 251,
    };
    let r = report_violation(
        &mut ctx,
        ViolationType::UptimeViolation,
        [7u8; 32],
        "down for an hour".to_string(),
        now,
    );
    assert_eq!(r, Ok(()));
    (ctx.provider, ctx.violation.unwrap())
}

fn slash_ctx(protocol: Protocol, provider: Provider, sla: SLA, violation: Violation) -> Slash {
    Slash {
        protocol,
        provider,
        provider_key: key(PROVIDER_KEY),
        sla,
        violation,
        stake_vault: key(VAULT),
        reporter: key(REPORTER),
    }
}

#[test]
fn initialize_creates_registry_with_zero_counters() {
    let mut ctx = Initialize { protocol: None, authority: key(1), bump: 254 };
    assert_eq!(initialize(&mut ctx), Ok(()));
    assert_eq!(
        ctx.protocol,
        Some(Protocol {
            authority: key(1),
            total_providers: 0,
            total_staked: 0,
            total_slashed: 0,
            bump: 254,
        })
    );
}

#[test]
fn initialize_twice_fails() {
    let mut ctx = Initialize { protocol: None, authority: key(1), bump: 254 };
    assert_eq!(initialize(&mut ctx), Ok(()));
    let before = ctx;
    assert_eq!(initialize(&mut ctx), Err(CovenantError::AlreadyExists));
    assert_eq!(ctx, before);
}

#[test]
fn register_with_exactly_min_stake_succeeds() {
    let (protocol, provider) = registered(fresh_protocol(), MIN_STAKE);
    assert_eq!(protocol.total_providers, 1);
    assert_eq!(protocol.total_staked, 100_000_000);
    assert_eq!(
        provider,
        Provider {
            authority: key(OWNER),
            name: "oracle".to_string(),
            service_endpoint: "https://o.example".to_string(),
            stake_amount: 100_000_000,
            violations: 0,
            successful_requests: 0,
            created_at: 10,
            is_active: true,
            bump: 253,
        }
    );
}

#[test]
fn register_one_below_min_stake_fails() {
    let mut ctx = RegisterProvider {
        protocol: fresh_protocol(),
        provider: None,
        stake_vault: key(VAULT),
        provider_authority: key(OWNER),
        bump: 253,
    };
    let before = ctx.clone();
    let r = register_provider(&mut ctx, "oracle".to_string(), "e".to_string(), MIN_STAKE - 1, 10);
    assert_eq!(r, Err(CovenantError::InsufficientStake));
    assert_eq!(ctx, before);
}

#[test]
fn withdraw_everything_deactivates_and_uncounts() {
    let (protocol, provider) = registered(fresh_protocol(), 150_000_000);
    let mut ctx = WithdrawStake {
        protocol,
        provider,
        stake_vault: key(VAULT),
        provider_authority: key(OWNER),
        authority: key(OWNER),
    };
    let r = withdraw_stake(&mut ctx, 150_000_000);
    assert_eq!(r, Ok(Transfer { from: key(VAULT), to: key(OWNER), amount: 150_000_000 }));
    assert_eq!(ctx.provider.stake_amount, 0);
    assert!(!ctx.provider.is_active);
    assert_eq!(ctx.protocol.total_providers, 0);
    assert_eq!(ctx.protocol.total_staked, 0);
}

#[test]
fn withdraw_down_to_one_below_min_fails() {
    let (protocol, provider) = registered(fresh_protocol(), 150_000_000);
    let mut ctx = WithdrawStake {
        protocol,
        provider,
        stake_vault: key(VAULT),
        provider_authority: key(OWNER),
        authority: key(OWNER),
    };
    let before = ctx.clone();
    assert_eq!(withdraw_stake(&mut ctx, 50_000_001), Err(CovenantError::WouldBreachMinStake));
    assert_eq!(ctx, before);
}

#[test]
fn withdraw_down_to_exactly_min_keeps_provider_active() {
    let (protocol, provider) = registered(fresh_protocol(), 150_000_000);
    let mut ctx = WithdrawStake {
        protocol,
        provider,
        stake_vault: key(VAULT),
        provider_authority: key(OWNER),
        authority: key(OWNER),
    };
    let r = withdraw_stake(&mut ctx, 50_000_000);
    assert_eq!(r, Ok(Transfer { from: key(VAULT), to: key(OWNER), amount: 50_000_000 }));
    assert_eq!(ctx.provider.stake_amount, MIN_STAKE);
    assert!(ctx.provider.is_active);
    assert_eq!(ctx.protocol.total_providers, 1);
    assert_eq!(ctx.protocol.total_staked, MIN_STAKE);
}

#[test]
fn slash_half_of_double_min_stake() {
    let (protocol, provider) = registered(fresh_protocol(), 200_000_000);
    let (provider, sla) = with_sla(provider, 50);
    let (provider, violation) = reported(provider, 30);
    let mut ctx = slash_ctx(protocol, provider, sla, violation);
    let r = slash(&mut ctx);
    assert_eq!(r, Ok(Transfer { from: key(VAULT), to: key(REPORTER), amount: 100_000_000 }));
    assert_eq!(ctx.provider.stake_amount, 100_000_000);
    assert!(ctx.provider.is_active);
    assert_eq!(ctx.protocol.total_slashed, 100_000_000);
    assert_eq!(ctx.protocol.total_staked, 100_000_000);
    assert_eq!(ctx.protocol.total_providers, 1);
    assert!(ctx.violation.is_resolved);
}

#[test]
fn slash_all_of_min_stake_deactivates() {
    let (protocol, provider) = registered(fresh_protocol(), 100_000_000);
    let (provider, sla) = with_sla(provider, 100);
    let (provider, violation) = reported(provider, 30);
    let mut ctx = slash_ctx(protocol, provider, sla, violation);
    let r = slash(&mut ctx);
    assert_eq!(r, Ok(Transfer { from: key(VAULT), to: key(REPORTER), amount: 100_000_000 }));
    assert_eq!(ctx.provider.stake_amount, 0);
    assert!(!ctx.provider.is_active);
    assert_eq!(ctx.protocol.total_slashed, 100_000_000);
    assert_eq!(ctx.protocol.total_staked, 0);
    assert!(ctx.violation.is_resolved);
}

#[test]
fn slash_with_no_stake_fails() {
    let (protocol, provider) = registered(fresh_protocol(), 100_000_000);
    let (provider, sla) = with_sla(provider, 100);
    let (provider, first) = reported(provider, 30);
    let (provider, second) = reported(provider, 31);
    let mut ctx = slash_ctx(protocol, provider, sla, second);
    assert!(slash(&mut ctx).is_ok());
    assert_eq!(ctx.provider.stake_amount, 0);

    // An open violation against a provider with nothing staked.
    let mut again = slash_ctx(ctx.protocol, ctx.provider.clone(), sla, first);
    let before = again.clone();
    assert_eq!(slash(&mut again), Err(CovenantError::NoStakeToSlash));
    assert_eq!(again, before);
}

#[test]
fn slash_twice_fails_and_changes_nothing() {
    let (protocol, provider) = registered(fresh_protocol(), 200_000_000);
    let (provider, sla) = with_sla(provider, 50);
    let (provider, violation) = reported(provider, 30);
    let mut ctx = slash_ctx(protocol, provider, sla, violation);
    assert!(slash(&mut ctx).is_ok());
    let before = ctx.clone();
    assert_eq!(slash(&mut ctx), Err(CovenantError::ViolationAlreadyResolved));
    assert_eq!(ctx, before);
}

#[test]
fn resolved_violation_outranks_empty_stake() {
    let (protocol, provider) = registered(fresh_protocol(), 100_000_000);
    let (provider, sla) = with_sla(provider, 100);
    let (provider, violation) = reported(provider, 30);
    let mut ctx = slash_ctx(protocol, provider, sla, violation);
    assert!(slash(&mut ctx).is_ok());
    assert_eq!(ctx.provider.stake_amount, 0);
    assert_eq!(slash(&mut ctx), Err(CovenantError::ViolationAlreadyResolved));
}

#[test]
fn sequential_violations_get_indices_zero_and_one() {
    let (protocol, provider) = registered(fresh_protocol(), 200_000_000);
    let (provider, sla) = with_sla(provider, 10);
    let (provider, first) = reported(provider, 30);
    assert_eq!(first.index, 0);
    assert_eq!(provider.violations, 1);
    let (provider, second) = reported(provider, 31);
    assert_eq!(second.index, 1);
    assert_eq!(provider.violations, 2);
    assert_eq!(second.reporter, key(REPORTER));
    assert_eq!(second.provider, key(PROVIDER_KEY));
    assert_eq!(second.timestamp, 31);
    assert!(!second.is_resolved);

    // Only the newest violation can be slashed.
    let mut stale = slash_ctx(protocol, provider.clone(), sla, first);
    let before = stale.clone();
    assert_eq!(slash(&mut stale), Err(CovenantError::RecordMismatch));
    assert_eq!(stale, before);

    let mut newest = slash_ctx(protocol, provider, sla, second);
    assert_eq!(
        slash(&mut newest),
        Ok(Transfer { from: key(VAULT), to: key(REPORTER), amount: 20_000_000 })
    );
    assert_eq!(newest.provider.stake_amount, 180_000_000);
}

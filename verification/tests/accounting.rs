use covenant::{
    define_sla, initialize, record_success, register_provider, report_violation, slash,
    slash_amount, withdraw_stake, CovenantError, DefineSLA, Initialize, Protocol, Provider,
    Pubkey, RecordSuccess, RegisterProvider, ReportViolation, Slash, ViolationType,
    WithdrawStake, MAX_DESCRIPTION_LEN, MAX_ENDPOINT_LEN, MAX_NAME_LEN, MIN_STAKE, SLA,
};

fn party(tag: u8) -> Pubkey {
    Pubkey::new_from_array([tag; 32])
}

fn open_protocol() -> Protocol {
    let mut ctx = Initialize { protocol: None, authority: party(200), bump: 1 };
    initialize(&mut ctx).unwrap();
    ctx.protocol.unwrap()
}

fn join(protocol: &mut Protocol, owner: u8, stake: u64) -> Provider {
    let mut ctx = RegisterProvider {
        protocol: *protocol,
        provider: None,
        stake_vault: party(owner + 100),
        provider_authority: party(owner),
        bump: 2,
    };
    register_provider(&mut ctx, format!("provider-{}", owner), "endpoint".to_string(), stake, 1)
        .unwrap();
    *protocol = ctx.protocol;
    ctx.provider.unwrap()
}

fn commit(provider: &Provider, owner: u8, penalty: u8) -> SLA {
    let mut ctx = DefineSLA {
        provider: provider.clone(),
        provider_key: party(owner + 50),
        sla: None,
        authority: party(owner),
        bump: 3,
    };
    define_sla(&mut ctx, 99, 100, 99, penalty, 2).unwrap();
    ctx.sla.unwrap()
}

/// Reports a violation against the provider and slashes it at once.
fn punish(
    protocol: &mut Protocol,
    provider: &mut Provider,
    owner: u8,
    sla: SLA,
) -> Result<u64, CovenantError> {
    let mut report = ReportViolation {
        provider: provider.clone(),
        provider_key: party(owner + 50),
        violation: None,
        reporter: party(150),
        bump: 4,
    };
    report_violation(&mut report, ViolationType::Other, [0u8; 32], "late".to_string(), 3)?;
    *provider = report.provider;
    let mut ctx = Slash {
        protocol: *protocol,
        provider: provider.clone(),
        provider_key: party(owner + 50),
        sla,
        violation: report.violation.unwrap(),
        stake_vault: party(owner + 100),
        reporter: party(150),
    };
    let transfer = slash(&mut ctx)?;
    *protocol = ctx.protocol;
    *provider = ctx.provider;
    Ok(transfer.amount)
}

fn leave(
    protocol: &mut Protocol,
    provider: &mut Provider,
    owner: u8,
    amount: u64,
) -> Result<(), CovenantError> {
    let mut ctx = WithdrawStake {
        protocol: *protocol,
        provider: provider.clone(),
        stake_vault: party(owner + 100),
        provider_authority: party(owner),
        authority: party(owner),
    };
    withdraw_stake(&mut ctx, amount)?;
    *protocol = ctx.protocol;
    *provider = ctx.provider;
    Ok(())
}

#[test]
fn limits_have_their_values() {
    assert_eq!(MIN_STAKE, 100_000_000);
    assert_eq!(MAX_NAME_LEN, 64);
    assert_eq!(MAX_ENDPOINT_LEN, 256);
    assert_eq!(MAX_DESCRIPTION_LEN, 512);
}

#[test]
fn slash_amount_is_the_percentage_rounded_down() {
    assert_eq!(slash_amount(200_000_000, 50), 100_000_000);
    assert_eq!(slash_amount(100_000_000, 100), 100_000_000);
    assert_eq!(slash_amount(1_000, 1), 10);
    assert_eq!(slash_amount(999, 1), 9);
    assert_eq!(slash_amount(199, 50), 99);
    assert_eq!(slash_amount(1, 50), 0);
    assert_eq!(slash_amount(3, 33), 0);
    assert_eq!(slash_amount(0, 100), 0);
    assert_eq!(slash_amount(123_456_789, 0), 0);
    assert_eq!(slash_amount(123_456_789, 7), 8_641_975);
}

#[test]
fn slash_amount_needs_more_than_64_bits_in_between() {
    assert_eq!(slash_amount(u64::MAX, 100), u64::MAX);
    assert_eq!(slash_amount(u64::MAX, 99), 18_262_276_632_972_456_098);
    assert_eq!(slash_amount(u64::MAX, 1), 184_467_440_737_095_516);
}

#[test]
fn slash_amount_never_exceeds_the_stake() {
    assert_eq!(slash_amount(1_000, 101), 1_000);
    assert_eq!(slash_amount(1_000, 255), 1_000);
    assert_eq!(slash_amount(u64::MAX, 255), u64::MAX);
    assert_eq!(slash_amount(u64::MAX, 200), u64::MAX);
}

#[test]
fn pubkeys_are_equal_when_all_bytes_are() {
    let mut bytes = [9u8; 32];
    let a = Pubkey::new_from_array(bytes);
    assert_eq!(a, Pubkey::new_from_array([9u8; 32]));
    assert_eq!(a.to_bytes(), [9u8; 32]);
    bytes[31] = 8;
    assert_ne!(a, Pubkey::new_from_array(bytes));
    bytes[31] = 9;
    bytes[0] = 8;
    assert_ne!(a, Pubkey::new_from_array(bytes));
    assert!(a == a);
}

#[test]
fn staked_total_stays_the_sum_of_the_stakes() {
    let mut protocol = open_protocol();
    let mut first = join(&mut protocol, 1, 300_000_000);
    let mut second = join(&mut protocol, 2, 100_000_000);
    let mut third = join(&mut protocol, 3, 1_000_000_007);
    let sum = |a: &Provider, b: &Provider, c: &Provider| {
        a.stake_amount + b.stake_amount + c.stake_amount
    };
    assert_eq!(protocol.total_staked, 1_400_000_007);
    assert_eq!(protocol.total_staked, sum(&first, &second, &third));

    let first_sla = commit(&first, 1, 30);
    let third_sla = commit(&third, 3, 1);
    assert_eq!(punish(&mut protocol, &mut first, 1, first_sla), Ok(90_000_000));
    assert_eq!(protocol.total_staked, sum(&first, &second, &third));
    assert_eq!(punish(&mut protocol, &mut third, 3, third_sla), Ok(10_000_000));
    assert_eq!(protocol.total_staked, sum(&first, &second, &third));
    assert_eq!(leave(&mut protocol, &mut second, 2, 100_000_000), Ok(()));
    assert_eq!(protocol.total_staked, sum(&first, &second, &third));
    assert_eq!(leave(&mut protocol, &mut first, 1, 110_000_000), Ok(()));
    assert_eq!(protocol.total_staked, sum(&first, &second, &third));
    assert_eq!(leave(&mut protocol, &mut third, 3, 900_000_000), Err(CovenantError::WouldBreachMinStake));
    assert_eq!(protocol.total_staked, sum(&first, &second, &third));
    assert_eq!(punish(&mut protocol, &mut first, 1, first_sla), Ok(30_000_000));
    assert_eq!(protocol.total_staked, sum(&first, &second, &third));

    assert_eq!(first.stake_amount, 70_000_000);
    assert_eq!(second.stake_amount, 0);
    assert_eq!(third.stake_amount, 990_000_007);
    assert_eq!(protocol.total_staked, 1_060_000_007);
    assert_eq!(protocol.total_slashed, 130_000_000);
}

#[test]
fn no_provider_is_active_below_the_minimum_stake() {
    let mut protocol = open_protocol();
    let mut provider = join(&mut protocol, 1, 250_000_000);
    let sla = commit(&provider, 1, 40);
    let mut stakes = Vec::new();
    while provider.is_active {
        assert!(provider.stake_amount >= MIN_STAKE);
        punish(&mut protocol, &mut provider, 1, sla).unwrap();
        stakes.push(provider.stake_amount);
    }
    assert_eq!(stakes, vec![150_000_000, 90_000_000]);
    assert!(provider.stake_amount < MIN_STAKE);
    assert!(!provider.is_active);
}

#[test]
fn slashing_deactivates_without_uncounting_the_provider() {
    let mut protocol = open_protocol();
    let mut slashed = join(&mut protocol, 1, 100_000_000);
    let mut withdrawn = join(&mut protocol, 2, 100_000_000);
    assert_eq!(protocol.total_providers, 2);

    let sla = commit(&slashed, 1, 100);
    assert_eq!(punish(&mut protocol, &mut slashed, 1, sla), Ok(100_000_000));
    assert!(!slashed.is_active);
    assert_eq!(slashed.stake_amount, 0);
    assert_eq!(protocol.total_providers, 2);

    assert_eq!(leave(&mut protocol, &mut withdrawn, 2, 100_000_000), Ok(()));
    assert!(!withdrawn.is_active);
    assert_eq!(withdrawn.stake_amount, 0);
    assert_eq!(protocol.total_providers, 1);
}

#[test]
fn deactivated_provider_keeps_its_remaining_stake() {
    let mut protocol = open_protocol();
    let mut provider = join(&mut protocol, 1, 100_000_000);
    let sla = commit(&provider, 1, 1);
    assert_eq!(punish(&mut protocol, &mut provider, 1, sla), Ok(1_000_000));
    assert!(!provider.is_active);
    assert_eq!(provider.stake_amount, 99_000_000);
    // Nothing leads back: no withdrawal, no further report.
    assert_eq!(leave(&mut protocol, &mut provider, 1, 99_000_000), Err(CovenantError::ProviderInactive));
    assert_eq!(punish(&mut protocol, &mut provider, 1, sla), Err(CovenantError::ProviderInactive));
    assert_eq!(protocol.total_staked, 99_000_000);
    assert_eq!(protocol.total_providers, 1);
}

#[test]
fn successes_and_reports_leave_stake_and_status_alone() {
    let mut protocol = open_protocol();
    let provider = join(&mut protocol, 1, 100_000_000);
    let mut success = RecordSuccess { provider, caller: party(66) };
    record_success(&mut success).unwrap();
    let mut report = ReportViolation {
        provider: success.provider,
        provider_key: party(51),
        violation: None,
        reporter: party(150),
        bump: 4,
    };
    report_violation(&mut report, ViolationType::ResponseTimeViolation, [1u8; 32], "slow".to_string(), 9)
        .unwrap();
    assert_eq!(report.provider.stake_amount, 100_000_000);
    assert!(report.provider.is_active);
    assert_eq!(report.provider.successful_requests, 1);
    assert_eq!(report.provider.violations, 1);
    assert_eq!(report.provider.authority, party(1));
    assert_eq!(protocol.total_staked, 100_000_000);
}

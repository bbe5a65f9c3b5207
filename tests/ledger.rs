use sfdn_oracle::global::{emergency_pause, emergency_unpause, GlobalState};
use sfdn_oracle::stake::{add_publisher, slash, stake_tokens, unstake_tokens, withdraw_unbonded, PublisherAccount, TokenVault};
use sfdn_oracle::types::{ErrorCode, Pubkey};
use sfdn_oracle::{MIN_STAKE_AMOUNT, UNBONDING_PERIOD};

fn key(n: u8) -> Pubkey {
    Pubkey { bytes: [n; 32] }
}

fn global(paused: bool) -> GlobalState {
    GlobalState {
        authority: key(200),
        token_mint: key(201),
        token_vault: key(202),
        vault_authority: key(203),
        governance: key(204),
        paused,
        total_products: 0,
        total_publishers: 0,
        version: 1,
        bump: 0,
        vault_authority_bump: 0,
    }
}

fn vault(total: u64) -> TokenVault {
    TokenVault {
        total_staked: total,
        total_rewards_distributed: 0,
        reward_rate: 5,
        last_distribution_slot: 0,
        token_mint: key(201),
        vault_token_account: key(205),
        vault_authority: key(203),
        authority: key(200),
        bump: 0,
    }
}

fn publisher(stake: u64) -> PublisherAccount {
    PublisherAccount {
        authority: key(1),
        staked_amount: stake,
        stake_account: key(2),
        reputation: 100,
        name: "alpha".to_string(),
        registered_at: 1,
        slash_count: 0,
        last_slash_slot: 0,
        unbonding_amount: 0,
        unbonding_start: 0,
        bump: 0,
    }
}

#[test]
fn register_publisher() {
    let mut g = global(false);
    let mut v = vault(0);
    let (acct, ev) = add_publisher(&mut g, &mut v, key(9), key(1), key(2), "alpha".to_string(), MIN_STAKE_AMOUNT, 77, 3).unwrap();
    assert_eq!(acct.staked_amount, MIN_STAKE_AMOUNT);
    assert_eq!(acct.reputation, 100);
    assert_eq!(acct.name, "alpha");
    assert_eq!(acct.registered_at, 77);
    assert_eq!(acct.slash_count, 0);
    assert_eq!(acct.unbonding_amount, 0);
    assert_eq!(ev.stake_amount, MIN_STAKE_AMOUNT);
    assert_eq!(ev.name, "alpha");
    assert_eq!(v.total_staked, MIN_STAKE_AMOUNT);
    assert_eq!(g.total_publishers, 1);
}

#[test]
fn register_refusals() {
    let mut g = global(false);
    let mut v = vault(0);
    let r = add_publisher(&mut g, &mut v, key(9), key(1), key(2), "a".to_string(), MIN_STAKE_AMOUNT - 1, 1, 0);
    assert!(matches!(r, Err(ErrorCode::InsufficientStake)));
    let mut paused = global(true);
    let r = add_publisher(&mut paused, &mut v, key(9), key(1), key(2), "a".to_string(), MIN_STAKE_AMOUNT, 1, 0);
    assert!(matches!(r, Err(ErrorCode::SystemPaused)));
    let mut full = vault(u64::MAX);
    let r = add_publisher(&mut g, &mut full, key(9), key(1), key(2), "a".to_string(), MIN_STAKE_AMOUNT, 1, 0);
    assert!(matches!(r, Err(ErrorCode::Overflow)));
    assert_eq!(full.total_staked, u64::MAX);
    assert_eq!(g.total_publishers, 0);
}

#[test]
fn stake_more() {
    let g = global(false);
    let mut p = publisher(MIN_STAKE_AMOUNT);
    let mut v = vault(MIN_STAKE_AMOUNT);
    assert_eq!(stake_tokens(&g, &mut p, &mut v, 0), Err(ErrorCode::InsufficientStake));
    assert_eq!(stake_tokens(&global(true), &mut p, &mut v, 5), Err(ErrorCode::SystemPaused));
    assert_eq!(stake_tokens(&g, &mut p, &mut v, 5), Ok(()));
    assert_eq!(p.staked_amount, MIN_STAKE_AMOUNT + 5);
    assert_eq!(v.total_staked, MIN_STAKE_AMOUNT + 5);
}

#[test]
fn unstake_keeps_the_minimum() {
    let g = global(false);
    let mut p = publisher(MIN_STAKE_AMOUNT + 100);
    assert_eq!(unstake_tokens(&g, &mut p, 101, 10), Err(ErrorCode::InsufficientStake));
    assert_eq!(unstake_tokens(&g, &mut p, u64::MAX, 10), Err(ErrorCode::InsufficientStake));
    assert_eq!(unstake_tokens(&global(true), &mut p, 1, 10), Err(ErrorCode::SystemPaused));
    assert_eq!(unstake_tokens(&g, &mut p, 40, 10), Ok(()));
    assert_eq!((p.staked_amount, p.unbonding_amount, p.unbonding_start), (MIN_STAKE_AMOUNT + 60, 40, 10));
    // a second request replaces the first and restarts the clock
    assert_eq!(unstake_tokens(&g, &mut p, 60, 20), Ok(()));
    assert_eq!((p.staked_amount, p.unbonding_amount, p.unbonding_start), (MIN_STAKE_AMOUNT, 60, 20));
}

#[test]
fn withdraw_at_exactly_the_unbonding_period() {
    let g = global(false);
    let mut p = publisher(MIN_STAKE_AMOUNT + 100);
    let mut v = vault(MIN_STAKE_AMOUNT + 100);
    unstake_tokens(&g, &mut p, 100, 1_000).unwrap();
    assert_eq!(withdraw_unbonded(&mut p, &mut v, 1_000 + UNBONDING_PERIOD - 1), Err(ErrorCode::UnbondingPeriodActive));
    assert_eq!(p.unbonding_amount, 100);
    assert_eq!(withdraw_unbonded(&mut p, &mut v, 1_000 + 604_800), Ok(100));
    assert_eq!((p.unbonding_amount, p.unbonding_start), (0, 0));
    assert_eq!(v.total_staked, MIN_STAKE_AMOUNT);
    assert_eq!(withdraw_unbonded(&mut p, &mut v, 1_000_000), Err(ErrorCode::InsufficientStake));
}

#[test]
fn withdraw_more_than_vault_total_fails() {
    let mut p = publisher(MIN_STAKE_AMOUNT);
    p.unbonding_amount = 50;
    let mut v = vault(10);
    assert_eq!(withdraw_unbonded(&mut p, &mut v, UNBONDING_PERIOD), Err(ErrorCode::Overflow));
    assert_eq!(p.unbonding_amount, 50);
    assert_eq!(v.total_staked, 10);
}

#[test]
fn slash_ten_percent_of_1000() {
    let mut p = publisher(1000);
    let mut v = vault(5000);
    let ev = slash(&mut p, &mut v, key(9), 10, 42).unwrap();
    assert_eq!(ev.slash_amount, 100);
    assert_eq!(ev.slash_percentage, 10);
    assert_eq!(ev.reason, "Governance proposal");
    assert_eq!(p.staked_amount, 900);
    assert_eq!(p.slash_count, 1);
    assert_eq!(p.last_slash_slot, 42);
    assert_eq!(v.total_staked, 4900);
}

#[test]
fn slash_rounds_down_and_refuses_excess() {
    let mut p = publisher(999);
    let mut v = vault(5000);
    assert_eq!(slash(&mut p, &mut v, key(9), 10, 1).unwrap().slash_amount, 99);
    let mut q = publisher(1000);
    assert!(matches!(slash(&mut q, &mut v, key(9), 101, 1), Err(ErrorCode::Overflow)));
    assert_eq!(q.staked_amount, 1000);
    let mut thin = vault(50);
    assert!(matches!(slash(&mut q, &mut thin, key(9), 10, 1), Err(ErrorCode::Overflow)));
    assert_eq!(q.slash_count, 0);
}

#[test]
fn pause_and_unpause_need_the_authority() {
    let mut g = global(false);
    assert!(matches!(emergency_pause(&mut g, key(7), 5), Err(ErrorCode::Unauthorized)));
    assert!(!g.paused);
    let ev = emergency_pause(&mut g, key(200), 5).unwrap();
    assert_eq!(ev.timestamp, 5);
    assert!(g.paused);
    assert!(matches!(emergency_unpause(&mut g, key(7), 6), Err(ErrorCode::Unauthorized)));
    assert!(g.paused);
    emergency_unpause(&mut g, key(200), 6).unwrap();
    assert!(!g.paused);
}

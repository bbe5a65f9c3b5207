use sfdn_oracle::feed::{aggregate_price, aggregate_prices_internal, create_product, update_price, PriceAccount, ProductAccount};
use sfdn_oracle::global::GlobalState;
use sfdn_oracle::stake::PublisherAccount;
use sfdn_oracle::stats::{
    calculate_confidence_safe, calculate_stake_weighted_median_optimized,
    determine_status_optimized, filter_outliers_optimized, isqrt, sort_by_price, sort_values,
    update_ema,
};
use sfdn_oracle::types::{
    AssetType, EmaData, ErrorCode, PriceStatus, PriceType, Pubkey, PublisherPrice,
};
use sfdn_oracle::MAX_PUBLISHERS;

fn key(n: u8) -> Pubkey {
    Pubkey { bytes: [n; 32] }
}

fn entry(n: u8, price: i64, stake: u64, timestamp: i64) -> PublisherPrice {
    PublisherPrice {
        publisher: key(n),
        price,
        confidence: 1,
        timestamp,
        slot: 1,
        stake,
        active: true,
    }
}

fn global(paused: bool) -> GlobalState {
    GlobalState {
        authority: key(200),
        token_mint: key(201),
        token_vault: key(202),
        vault_authority: key(203),
        governance: key(204),
        paused,
        total_products: 0,
        total_publishers: 0,
        version: 1,
        bump: 0,
        vault_authority_bump: 0,
    }
}

fn feed(min_publishers: u8) -> (ProductAccount, PriceAccount) {
    let mut g = global(false);
    create_product(
        &mut g,
        "SOL/USD".to_string(),
        AssetType::Crypto,
        "Solana".to_string(),
        PriceType::Spot,
        min_publishers,
        -8,
        key(100),
        key(101),
        key(102),
        (1, 2),
    )
    .unwrap()
}

fn publisher(n: u8, stake: u64) -> PublisherAccount {
    PublisherAccount {
        authority: key(n),
        staked_amount: stake,
        stake_account: key(n),
        reputation: 100,
        name: format!("p{}", n),
        registered_at: 1,
        slash_count: 0,
        last_slash_slot: 0,
        unbonding_amount: 0,
        unbonding_start: 0,
        bump: 0,
    }
}

#[test]
fn weighted_median_crosses_at_highest_price() {
    let v = vec![entry(1, 99, 5, 1000), entry(2, 100, 10, 1000), entry(3, 101, 20, 1000)];
    assert_eq!(calculate_stake_weighted_median_optimized(&v), Ok(101));
}

#[test]
fn three_publishers_aggregate_to_101() {
    let (product, mut pa) = feed(3);
    let g = global(false);
    let now = 1000;
    assert!(matches!(update_price(&g, &mut pa, &publisher(1, 5), &product.symbol, 99, 1, now, 7), Ok(None)));
    assert_eq!(pa.aggregate.status, PriceStatus::Unknown);
    assert!(matches!(update_price(&g, &mut pa, &publisher(2, 10), &product.symbol, 100, 1, now, 8), Ok(None)));
    let ev = update_price(&g, &mut pa, &publisher(3, 20), &product.symbol, 101, 1, now, 9)
        .unwrap()
        .unwrap();
    assert_eq!(ev.price, 101);
    assert_eq!(ev.symbol, "SOL/USD");
    assert_eq!(ev.status, PriceStatus::Trading);
    assert_eq!(pa.aggregate.price, 101);
    assert_eq!(pa.aggregate.exponent, -8);
    assert_eq!(pa.aggregate.slot, 9);
    assert_eq!(pa.publisher_count, 3);
    assert_eq!(pa.ema.ema_price, 101);
    assert_eq!(pa.ema.num_observations, 1);
    // sum of 5*4 + 10*1 + 20*0 = 30 over stake 35 rounds to 0: floored at 1
    assert_eq!(pa.aggregate.confidence, 1);
}

#[test]
fn resubmission_overwrites_own_slot() {
    let (product, mut pa) = feed(5);
    let g = global(false);
    update_price(&g, &mut pa, &publisher(1, 5), &product.symbol, 99, 1, 10, 1).unwrap();
    update_price(&g, &mut pa, &publisher(1, 5), &product.symbol, 120, 1, 11, 2).unwrap();
    assert_eq!(pa.publisher_count, 1);
    assert_eq!(pa.publishers[0].price, 120);
    assert!(!pa.publishers[1].active);
    assert_eq!(pa.last_update_slot, 2);
}

#[test]
fn update_price_errors() {
    let (product, mut pa) = feed(1);
    assert!(matches!(update_price(&global(true), &mut pa, &publisher(1, 5), &product.symbol, 99, 1, 10, 1), Err(ErrorCode::SystemPaused)));
    let g = global(false);
    assert!(matches!(update_price(&g, &mut pa, &publisher(1, 5), &product.symbol, 0, 1, 10, 1), Err(ErrorCode::InvalidPrice)));
    assert!(matches!(update_price(&g, &mut pa, &publisher(1, 5), &product.symbol, 5, 1, 0, 1), Err(ErrorCode::InvalidTimestamp)));
    assert_eq!(pa.publisher_count, 0);
}

#[test]
fn full_table_is_refused() {
    let (product, mut pa) = feed(255);
    let g = global(false);
    for i in 0..MAX_PUBLISHERS {
        update_price(&g, &mut pa, &publisher(i as u8, 5), &product.symbol, 10, 1, 10, 1).unwrap();
    }
    assert_eq!(pa.publisher_count as usize, MAX_PUBLISHERS);
    assert!(matches!(update_price(&g, &mut pa, &publisher(150, 5), &product.symbol, 10, 1, 10, 1), Err(ErrorCode::PublishersArrayFull)));
    assert_eq!(pa.publisher_count as usize, MAX_PUBLISHERS);
}

#[test]
fn too_few_fresh_entries_keep_the_price() {
    let (product, mut pa) = feed(2);
    let g = global(false);
    update_price(&g, &mut pa, &publisher(1, 5), &product.symbol, 100, 1, 100, 1).unwrap();
    update_price(&g, &mut pa, &publisher(2, 5), &product.symbol, 102, 1, 100, 2).unwrap();
    assert_eq!(pa.aggregate.status, PriceStatus::Trading);
    update_price(&g, &mut pa, &publisher(1, 5), &product.symbol, 100, 1, 125, 3).unwrap();
    let price = pa.aggregate.price;
    let ema = pa.ema;
    // the second publisher's submission is stale by now
    let r = aggregate_prices_internal(&mut pa, &product.symbol, 140, 4);
    assert!(matches!(r, Ok(None)));
    assert_eq!(pa.aggregate.status, PriceStatus::Unknown);
    assert_eq!(pa.aggregate.price, price);
    assert_eq!(pa.ema.ema_price, ema.ema_price);
    assert_eq!(pa.ema.num_observations, ema.num_observations);
}

#[test]
fn no_fresh_entry_marks_unknown() {
    let (product, mut pa) = feed(0);
    let r = aggregate_price(&mut pa, &product, 500, 1);
    assert!(matches!(r, Ok(None)));
    assert_eq!(pa.aggregate.status, PriceStatus::Unknown);
    assert_eq!(pa.aggregate.price, 0);
}

#[test]
fn small_sets_keep_far_apart_entries() {
    let v = vec![entry(1, 1, 1, 1), entry(2, 1_000_000, 1, 1)];
    let kept = filter_outliers_optimized(&v);
    assert_eq!(kept.len(), 2);
}

#[test]
fn outlier_beyond_three_mads_is_rejected() {
    let v = vec![entry(1, 100, 1, 1), entry(2, 101, 1, 1), entry(3, 102, 1, 1), entry(4, 1000, 1, 1)];
    // median is 102, deviations 2, 1, 0, 898: MAD 2, threshold 6
    let kept = filter_outliers_optimized(&v);
    let prices: Vec<i64> = kept.iter().map(|e| e.price).collect();
    assert_eq!(prices, vec![100, 101, 102]);
}

#[test]
fn entry_exactly_at_threshold_survives() {
    let v = vec![entry(1, 94, 1, 1), entry(2, 98, 1, 1), entry(3, 100, 1, 1), entry(4, 102, 1, 1), entry(5, 106, 1, 1)];
    // median 100, deviations 6, 2, 0, 2, 6: MAD 2, threshold 6
    assert_eq!(filter_outliers_optimized(&v).len(), 5);
    let w = vec![entry(1, 93, 1, 1), entry(2, 98, 1, 1), entry(3, 100, 1, 1), entry(4, 102, 1, 1), entry(5, 106, 1, 1)];
    assert_eq!(filter_outliers_optimized(&w).len(), 4);
}

#[test]
fn confidence_is_weighted_rms_deviation() {
    let v = vec![entry(1, 100, 1, 1), entry(2, 110, 1, 1), entry(3, 120, 2, 1)];
    assert_eq!(calculate_stake_weighted_median_optimized(&v), Ok(110));
    // (1*100 + 0 + 2*100) / 4 = 75, whose root rounds down to 8
    assert_eq!(calculate_confidence_safe(&v, 110), Ok(8));
}

#[test]
fn confidence_never_zero() {
    let v = vec![entry(1, 100, 3, 1), entry(2, 100, 4, 1)];
    assert_eq!(calculate_confidence_safe(&v, 100), Ok(1));
    let z = vec![entry(1, 100, 0, 1), entry(2, 300, 0, 1)];
    assert_eq!(calculate_confidence_safe(&z, 100), Ok(1));
}

#[test]
fn confidence_overflow_is_reported() {
    let v = vec![entry(1, i64::MAX, u64::MAX, 1), entry(2, 1, 1, 1)];
    assert_eq!(calculate_confidence_safe(&v, 1), Err(ErrorCode::Overflow));
}

#[test]
fn zero_stake_median_is_first_entry() {
    let v = vec![entry(1, 7, 0, 1), entry(2, 9, 0, 1)];
    assert_eq!(calculate_stake_weighted_median_optimized(&v), Ok(7));
}

#[test]
fn odd_total_stake_uses_rounded_up_half() {
    // total 31, half rounded up is 16: 15 does not reach it
    let v = vec![entry(1, 10, 15, 1), entry(2, 20, 16, 1)];
    assert_eq!(calculate_stake_weighted_median_optimized(&v), Ok(20));
}

#[test]
fn status_rules() {
    let v = vec![entry(1, 10, 1, 100), entry(2, 10, 1, 130)];
    assert_eq!(determine_status_optimized(&v, 3, 150), PriceStatus::Unknown);
    assert_eq!(determine_status_optimized(&v, 2, 190), PriceStatus::Trading);
    assert_eq!(determine_status_optimized(&v, 2, 191), PriceStatus::Halted);
    assert_eq!(determine_status_optimized(&v, 3, 1000), PriceStatus::Unknown);
}

#[test]
fn ema_first_then_smoothed() {
    let first = update_ema(&EmaData::default(), 100, 10);
    assert_eq!((first.ema_price, first.ema_confidence, first.num_observations), (100, 10, 1));
    let second = update_ema(&first, 200, 20);
    assert_eq!((second.ema_price, second.ema_confidence, second.num_observations), (110, 11, 2));
    let neg = update_ema(&EmaData { ema_price: 0, ema_confidence: 0, num_observations: 3 }, -15, 0);
    assert_eq!(neg.ema_price, -1);
    let full = update_ema(&EmaData { ema_price: 5, ema_confidence: 5, num_observations: u64::MAX }, 5, 5);
    assert_eq!(full.num_observations, u64::MAX);
}

#[test]
fn sorting_and_square_root() {
    assert_eq!(sort_values(&vec![5, -1, 3, 3, 0]), vec![-1, 0, 3, 3, 5]);
    let sorted = sort_by_price(&vec![entry(1, 30, 1, 1), entry(2, 10, 1, 1), entry(3, 20, 1, 1)]);
    let prices: Vec<i64> = sorted.iter().map(|e| e.price).collect();
    assert_eq!(prices, vec![10, 20, 30]);
    assert_eq!(isqrt(0), 0);
    assert_eq!(isqrt(75), 8);
    assert_eq!(isqrt(81), 9);
    assert_eq!(isqrt(u128::MAX), u64::MAX);
}

#[test]
fn stale_and_outlier_entries_do_not_move_the_price() {
    let (product, mut pa) = feed(3);
    let g = global(false);
    update_price(&g, &mut pa, &publisher(1, 10), &product.symbol, 100, 1, 1000, 1).unwrap();
    update_price(&g, &mut pa, &publisher(2, 10), &product.symbol, 101, 1, 1000, 1).unwrap();
    update_price(&g, &mut pa, &publisher(3, 10), &product.symbol, 102, 1, 1000, 1).unwrap();
    let ev = update_price(&g, &mut pa, &publisher(4, 1000), &product.symbol, 5000, 1, 1000, 1)
        .unwrap()
        .unwrap();
    assert_eq!(ev.price, 101);
    assert_eq!(pa.publisher_count, 4);
}

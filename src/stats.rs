//! The statistics behind a feed's aggregate: ordering by price, outlier
//! rejection by median absolute deviation, the stake-weighted median, the
//! stake-weighted confidence, status derivation and exponential smoothing.
use vstd::prelude::*;
use vstd::relations::{sorted_by, total_ordering};
use vstd::seq_lib::{group_to_multiset_ensures, lemma_sorted_unique, to_multiset_insert};

use crate::types::{EmaData, ErrorCode, PriceStatus, PublisherPrice};
use crate::{EMA_ALPHA_SCALED, EMA_SCALE, HALTED_THRESHOLD, OUTLIER_MAD_MULTIPLIER};

verus! {

pub open spec fn abs(x: int) -> int {
    if x < 0 {
        -x
    } else {
        x
    }
}

/// A sequence of machine integers read as mathematical integers.
pub open spec fn ints(s: Seq<i64>) -> Seq<int> {
    s.map_values(|x: i64| x as int)
}

/// Entries in ascending order of price.
pub open spec fn sorted_by_price(s: Seq<PublisherPrice>) -> bool {
    forall|i: int, j: int| 0 <= i < j < s.len() ==> s[i].price <= s[j].price
}

/// Every entry carries a strictly positive price.
pub open spec fn prices_positive(s: Seq<PublisherPrice>) -> bool {
    forall|i: int| 0 <= i < s.len() ==> s[i].price > 0
}

proof fn lemma_int_leq_total()
    ensures
        total_ordering(|x: int, y: int| x <= y),
{
}

/// Sorts machine integers in ascending order.
pub fn sort_values(v: &Vec<i64>) -> (r: Vec<i64>)
    ensures
        ints(r@) == ints(v@).sort(),
{
    broadcast use group_to_multiset_ensures;

    let mut r: Vec<i64> = Vec::new();
    let mut i: usize = 0;
    while i < v.len()
        invariant
            0 <= i <= v.len(),
            r@.len() == i,
            forall|a: int, b: int| 0 <= a < b < r@.len() ==> r@[a] <= r@[b],
            ints(r@).to_multiset() == ints(v@.subrange(0, i as int)).to_multiset(),
        decreases v.len() - i,
    {
        let x = v[i];
        let mut pos: usize = 0;
        while pos < r.len() && r[pos] <= x
            invariant
                0 <= pos <= r@.len(),
                forall|a: int| 0 <= a < pos ==> r@[a] <= x,
            decreases r@.len() - pos,
        {
            pos = pos + 1;
        }
        proof {
            assert(ints(r@.insert(pos as int, x)) =~= ints(r@).insert(pos as int, x as int));
            assert(ints(v@.subrange(0, i + 1)) =~= ints(v@.subrange(0, i as int)).push(x as int));
        }
        let ghost before = r@;
        r.insert(pos, x);
        proof {
            assert(ints(r@) == ints(before).insert(pos as int, x as int));
            to_multiset_insert(ints(before), pos as int, x as int);
            ints(v@.subrange(0, i as int)).to_multiset_ensures();
            assert(ints(r@).to_multiset() == ints(before).to_multiset().insert(x as int));
            assert(ints(v@.subrange(0, i + 1)).to_multiset() == ints(
                v@.subrange(0, i as int),
            ).to_multiset().insert(x as int));
        }
        i = i + 1;
    }
    proof {
        assert(v@.subrange(0, v@.len() as int) =~= v@);
        ints(v@).lemma_sort_ensures();
        lemma_int_leq_total();
        lemma_sorted_unique(ints(r@), ints(v@).sort(), |x: int, y: int| x <= y);
    }
    r
}

/// Orders entries by ascending price, keeping all of them.
pub fn sort_by_price(v: &Vec<PublisherPrice>) -> (r: Vec<PublisherPrice>)
    ensures
        sorted_by_price(r@),
        r@.to_multiset() == v@.to_multiset(),
{
    broadcast use group_to_multiset_ensures;

    let mut r: Vec<PublisherPrice> = Vec::new();
    let mut i: usize = 0;
    while i < v.len()
        invariant
            0 <= i <= v.len(),
            r@.len() == i,
            sorted_by_price(r@),
            r@.to_multiset() == v@.subrange(0, i as int).to_multiset(),
        decreases v.len() - i,
    {
        let x = v[i];
        let mut pos: usize = 0;
        while pos < r.len() && r[pos].price <= x.price
            invariant
                0 <= pos <= r@.len(),
                forall|a: int| 0 <= a < pos ==> r@[a].price <= x.price,
            decreases r@.len() - pos,
        {
            pos = pos + 1;
        }
        proof {
            assert(v@.subrange(0, i + 1) =~= v@.subrange(0, i as int).push(x));
        }
        let ghost before = r@;
        r.insert(pos, x);
        proof {
            to_multiset_insert(before, pos as int, x);
            v@.subrange(0, i as int).to_multiset_ensures();
            assert(r@.to_multiset() == before.to_multiset().insert(x));
            assert(v@.subrange(0, i + 1).to_multiset() == v@.subrange(
                0,
                i as int,
            ).to_multiset().insert(x));
        }
        i = i + 1;
    }
    proof {
        assert(v@.subrange(0, v@.len() as int) =~= v@);
    }
    r
}


/// The median price of entries sorted by price: the entry at the middle
/// position (the upper middle one for an even count).
pub open spec fn median_price(s: Seq<PublisherPrice>) -> int {
    s[s.len() as int / 2].price as int
}

/// Absolute deviation of each entry's price from `m`.
pub open spec fn deviations(s: Seq<PublisherPrice>, m: int) -> Seq<int> {
    Seq::new(s.len(), |i: int| abs(s[i].price - m))
}

/// Median absolute deviation from the median price.
pub open spec fn mad(s: Seq<PublisherPrice>) -> int {
    deviations(s, median_price(s)).sort()[s.len() as int / 2]
}

/// Three times the MAD, saturated at the largest `i64`.
pub open spec fn outlier_threshold(s: Seq<PublisherPrice>) -> int {
    if 3 * mad(s) > i64::MAX {
        i64::MAX as int
    } else {
        3 * mad(s)
    }
}

/// The entries whose price lies within `t` of `m`, in their order.
pub open spec fn keep_within(s: Seq<PublisherPrice>, m: int, t: int) -> Seq<PublisherPrice>
    decreases s.len(),
{
    if s.len() == 0 {
        s
    } else {
        let rest = keep_within(s.drop_last(), m, t);
        if abs(s.last().price - m) <= t {
            rest.push(s.last())
        } else {
            rest
        }
    }
}

/// What survives outlier rejection: everything below three entries, else
/// the entries within the outlier threshold of the median.
pub open spec fn outlier_filter(s: Seq<PublisherPrice>) -> Seq<PublisherPrice> {
    if s.len() < 3 {
        s
    } else {
        keep_within(s, median_price(s), outlier_threshold(s))
    }
}

proof fn lemma_sort_member(s: Seq<int>, k: int)
    requires
        0 <= k < s.len(),
    ensures
        s.sort().len() == s.len(),
        s.contains(s.sort()[k]),
{
    s.lemma_sort_ensures();
    s.to_multiset_ensures();
    s.sort().to_multiset_ensures();
    let x = s.sort()[k];
    assert(s.sort().contains(x));
    assert(s.sort().to_multiset().count(x) > 0);
    assert(s.to_multiset().count(x) > 0);
}

/// Removes outliers by median absolute deviation from entries sorted by price.
pub fn filter_outliers_optimized(prices: &Vec<PublisherPrice>) -> (r: Vec<PublisherPrice>)
    requires
        sorted_by_price(prices@),
        prices_positive(prices@),
    ensures
        r@ == outlier_filter(prices@),
{
    let n = prices.len();
    if n < 3 {
        let mut all: Vec<PublisherPrice> = Vec::new();
        let mut i: usize = 0;
        while i < n
            invariant
                n == prices@.len(),
                0 <= i <= n,
                all@ == prices@.subrange(0, i as int),
            decreases n - i,
        {
            all.push(prices[i]);
            proof {
                assert(all@ =~= prices@.subrange(0, i + 1));
            }
            i = i + 1;
        }
        proof {
            assert(all@ =~= prices@);
        }
        return all;
    }
    let median = prices[n / 2].price;
    let mut devs: Vec<i64> = Vec::new();
    let mut i: usize = 0;
    while i < n
        invariant
            n == prices@.len(),
            0 <= i <= n,
            median == median_price(prices@),
            prices_positive(prices@),
            devs@.len() == i,
            forall|j: int| 0 <= j < i ==> devs@[j] == abs(prices@[j].price - median),
        decreases n - i,
    {
        let p = prices[i].price;
        let d = if p >= median {
            p - median
        } else {
            median - p
        };
        devs.push(d);
        i = i + 1;
    }
    let sorted = sort_values(&devs);
    proof {
        assert(ints(devs@) =~= deviations(prices@, median_price(prices@)));
        lemma_sort_member(ints(devs@), n as int / 2);
        assert(ints(sorted@)[n as int / 2] == sorted@[n as int / 2] as int);
    }
    let mad = sorted[n / 2];
    assert(mad >= 0);
    let threshold = if mad > i64::MAX / OUTLIER_MAD_MULTIPLIER {
        i64::MAX
    } else {
        mad * OUTLIER_MAD_MULTIPLIER
    };
    let mut kept: Vec<PublisherPrice> = Vec::new();
    let mut i: usize = 0;
    while i < n
        invariant
            n == prices@.len(),
            0 <= i <= n,
            median == median_price(prices@),
            threshold == outlier_threshold(prices@),
            prices_positive(prices@),
            kept@ == keep_within(prices@.subrange(0, i as int), median as int, threshold as int),
        decreases n - i,
    {
        let e = prices[i];
        let d = if e.price >= median {
            e.price - median
        } else {
            median - e.price
        };
        proof {
            let t = prices@.subrange(0, i + 1);
            assert(t.drop_last() =~= prices@.subrange(0, i as int));
            assert(t.last() == e);
        }
        if d <= threshold {
            kept.push(e);
        }
        i = i + 1;
    }
    proof {
        assert(prices@.subrange(0, n as int) =~= prices@);
    }
    kept
}

pub proof fn lemma_keep_within(s: Seq<PublisherPrice>, m: int, t: int)
    ensures
        keep_within(s, m, t).len() <= s.len(),
        forall|e: PublisherPrice| #[trigger]
            keep_within(s, m, t).contains(e) ==> s.contains(e) && abs(e.price - m) <= t,
        forall|i: int|
            0 <= i < s.len() && abs(s[i].price - m) <= t ==> keep_within(s, m, t).contains(
                #[trigger] s[i],
            ),
    decreases s.len(),
{
    if s.len() > 0 {
        let d = s.drop_last();
        lemma_keep_within(d, m, t);
        let rest = keep_within(d, m, t);
        let r = keep_within(s, m, t);
        assert forall|e: PublisherPrice| #[trigger] r.contains(e) implies s.contains(e) && abs(
            e.price - m,
        ) <= t by {
            if rest.contains(e) {
                let j = choose|j: int| 0 <= j < d.len() && d[j] == e;
                assert(s[j] == e);
            } else {
                assert(r == rest.push(s.last()));
                let j = choose|j: int| 0 <= j < r.len() && r[j] == e;
                if j < rest.len() {
                    assert(rest[j] == e);
                }
                assert(s[s.len() - 1] == e);
            }
        }
        assert forall|i: int| 0 <= i < s.len() && abs(s[i].price - m) <= t implies r.contains(
            #[trigger] s[i],
        ) by {
            if i < d.len() {
                assert(d[i] == s[i]);
                assert(rest.contains(d[i]));
                if abs(s.last().price - m) <= t {
                    let j = choose|j: int| 0 <= j < rest.len() && rest[j] == s[i];
                    assert(r[j] == s[i]);
                }
            } else {
                assert(r == rest.push(s.last()));
                assert(r[r.len() - 1] == s[i]);
            }
        }
    }
}

/// The median absolute deviation is a deviation, so never negative.
pub proof fn lemma_mad_nonnegative(s: Seq<PublisherPrice>)
    requires
        s.len() > 0,
    ensures
        mad(s) >= 0,
{
    let d = deviations(s, median_price(s));
    lemma_sort_member(d, s.len() as int / 2);
    let j = choose|j: int| 0 <= j < d.len() && d[j] == mad(s);
    assert(d[j] >= 0);
}

/// What outlier rejection keeps is a non-empty part of a non-empty input.
pub proof fn lemma_outlier_filter_props(s: Seq<PublisherPrice>)
    requires
        s.len() > 0,
    ensures
        0 < outlier_filter(s).len() <= s.len(),
        forall|e: PublisherPrice| #[trigger] outlier_filter(s).contains(e) ==> s.contains(e),
{
    if s.len() >= 3 {
        lemma_mad_nonnegative(s);
        let m = median_price(s);
        let t = outlier_threshold(s);
        lemma_keep_within(s, m, t);
        let k = s.len() as int / 2;
        assert(abs(s[k].price - m) <= t);
        assert(keep_within(s, m, t).contains(s[k]));
    }
}

/// Stake of the first `k` entries.
pub open spec fn stake_prefix(s: Seq<PublisherPrice>, k: int) -> int
    decreases k,
{
    if k <= 0 {
        0
    } else {
        stake_prefix(s, k - 1) + s[k - 1].stake
    }
}

/// Stake of all entries.
pub open spec fn total_stake(s: Seq<PublisherPrice>) -> int {
    stake_prefix(s, s.len() as int)
}

/// Half the total stake, rounded up.
pub open spec fn half_stake(s: Seq<PublisherPrice>) -> int {
    (total_stake(s) + 1) / 2
}

/// The first position from `k` on at which the cumulative stake reaches
/// `target` (the first position if none does).
pub open spec fn first_crossing(s: Seq<PublisherPrice>, target: int, k: int) -> int
    decreases s.len() - k,
{
    if k < 0 || k >= s.len() {
        0
    } else if stake_prefix(s, k + 1) >= target {
        k
    } else {
        first_crossing(s, target, k + 1)
    }
}

/// Position of the stake-weighted median in entries sorted by price.
pub open spec fn weighted_median_index(s: Seq<PublisherPrice>) -> int {
    first_crossing(s, half_stake(s), 0)
}

/// The stake-weighted median price.
pub open spec fn weighted_median(s: Seq<PublisherPrice>) -> int {
    s[weighted_median_index(s)].price as int
}

pub proof fn lemma_stake_prefix_bounds(s: Seq<PublisherPrice>, k: int)
    requires
        0 <= k <= s.len(),
    ensures
        0 <= stake_prefix(s, k) <= k * (u64::MAX as int),
    decreases k,
{
    if k > 0 {
        lemma_stake_prefix_bounds(s, k - 1);
        assert((k - 1) * (u64::MAX as int) + u64::MAX as int == k * (u64::MAX as int))
            by (nonlinear_arith);
    }
}

proof fn lemma_first_crossing_range(s: Seq<PublisherPrice>, target: int, k: int)
    requires
        s.len() > 0,
    ensures
        0 <= first_crossing(s, target, k) < s.len(),
    decreases s.len() - k,
{
    if 0 <= k < s.len() && stake_prefix(s, k + 1) < target {
        lemma_first_crossing_range(s, target, k + 1);
    }
}

/// The median by cumulative stake of entries sorted by price: the price of
/// the first entry at which the running stake reaches half the total.
pub fn calculate_stake_weighted_median_optimized(prices: &Vec<PublisherPrice>) -> (r: Result<
    i64,
    ErrorCode,
>)
    requires
        prices@.len() > 0,
        prices@.len() <= u64::MAX,
    ensures
        r == Ok::<i64, ErrorCode>(prices@[weighted_median_index(prices@)].price),
        0 <= weighted_median_index(prices@) < prices@.len(),
{
    let n = prices.len();
    let mut total: u128 = 0;
    let mut i: usize = 0;
    while i < n
        invariant
            n == prices@.len(),
            n <= u64::MAX,
            0 <= i <= n,
            total == stake_prefix(prices@, i as int),
        decreases n - i,
    {
        proof {
            lemma_stake_prefix_bounds(prices@, i + 1);
            assert((i + 1) * (u64::MAX as int) <= (u64::MAX as int) * (u64::MAX as int))
                by (nonlinear_arith)
                requires
                    i + 1 <= u64::MAX,
            ;
        }
        total = total + prices[i].stake as u128;
        i = i + 1;
    }
    let half = total / 2 + total % 2;
    proof {
        assert(half == half_stake(prices@));
        lemma_first_crossing_range(prices@, half as int, 0);
    }
    let mut cumulative: u128 = 0;
    let mut i: usize = 0;
    while i < n
        invariant
            n == prices@.len(),
            n <= u64::MAX,
            0 <= i <= n,
            half == half_stake(prices@),
            cumulative == stake_prefix(prices@, i as int),
            i == 0 || cumulative < half,
            first_crossing(prices@, half as int, 0) == first_crossing(
                prices@,
                half as int,
                i as int,
            ),
        decreases n - i,
    {
        proof {
            lemma_stake_prefix_bounds(prices@, i + 1);
            assert((i + 1) * (u64::MAX as int) <= (u64::MAX as int) * (u64::MAX as int))
                by (nonlinear_arith)
                requires
                    i + 1 <= u64::MAX,
            ;
        }
        cumulative = cumulative + prices[i].stake as u128;
        if cumulative >= half {
            return Ok(prices[i].price);
        }
        i = i + 1;
    }
    proof {
        lemma_stake_prefix_bounds(prices@, n as int);
    }
    Ok(prices[0].price)
}


/// Stake-weighted squared deviation from `m` of the first `k` entries.
pub open spec fn sq_dev_prefix(s: Seq<PublisherPrice>, m: int, k: int) -> int
    decreases k,
{
    if k <= 0 {
        0
    } else {
        sq_dev_prefix(s, m, k - 1) + s[k - 1].stake * ((s[k - 1].price - m) * (s[k - 1].price
            - m))
    }
}

/// `Σ stake·(price − m)²` over all entries.
pub open spec fn weighted_sq_dev(s: Seq<PublisherPrice>, m: int) -> int {
    sq_dev_prefix(s, m, s.len() as int)
}

/// `r` is the integer square root of `v`, rounded down.
pub open spec fn is_floor_sqrt(v: int, r: int) -> bool {
    0 <= r && r * r <= v < (r + 1) * (r + 1)
}

/// The integer square root of `v`, rounded down.
pub open spec fn floor_sqrt(v: int) -> int {
    choose|r: int| is_floor_sqrt(v, r)
}

/// Whether the weighted squared deviation leaves the 128-bit range in which
/// it is computed.
pub open spec fn confidence_overflows(s: Seq<PublisherPrice>, m: int) -> bool {
    total_stake(s) > 0 && weighted_sq_dev(s, m) > u128::MAX
}

/// Stake-weighted root-mean-square deviation from `m`, at least 1.
pub open spec fn confidence_value(s: Seq<PublisherPrice>, m: int) -> int {
    if total_stake(s) == 0 {
        1
    } else {
        let root = floor_sqrt(weighted_sq_dev(s, m) / total_stake(s));
        if root < 1 {
            1
        } else {
            root
        }
    }
}

pub proof fn lemma_floor_sqrt_unique(v: int, a: int, b: int)
    requires
        is_floor_sqrt(v, a),
        is_floor_sqrt(v, b),
    ensures
        a == b,
{
    if a < b {
        assert((a + 1) * (a + 1) <= b * b) by (nonlinear_arith)
            requires
                0 <= a + 1 <= b,
        ;
    } else if b < a {
        assert((b + 1) * (b + 1) <= a * a) by (nonlinear_arith)
            requires
                0 <= b + 1 <= a,
        ;
    }
}

/// Integer square root, rounded down.
pub fn isqrt(v: u128) -> (r: u64)
    ensures
        is_floor_sqrt(v as int, r as int),
        r == floor_sqrt(v as int),
{
    let mut lo: u128 = 0;
    let mut hi: u128 = 0x1_0000_0000_0000_0000;
    assert(hi * hi > u128::MAX) by (nonlinear_arith)
        requires
            hi == 0x1_0000_0000_0000_0000u128,
    ;
    while hi - lo > 1
        invariant
            lo < hi <= 0x1_0000_0000_0000_0000u128,
            lo * lo <= v,
            v < hi * hi,
        decreases hi - lo,
    {
        let mid = lo + (hi - lo) / 2;
        assert(mid * mid <= 0xffff_ffff_ffff_ffffu128 * 0xffff_ffff_ffff_ffffu128)
            by (nonlinear_arith)
            requires
                0 <= mid < 0x1_0000_0000_0000_0000u128,
        ;
        if mid * mid <= v {
            lo = mid;
        } else {
            hi = mid;
        }
    }
    proof {
        assert(is_floor_sqrt(v as int, lo as int));
        lemma_floor_sqrt_unique(v as int, lo as int, floor_sqrt(v as int));
    }
    lo as u64
}

proof fn lemma_sq_dev_prefix_monotone(s: Seq<PublisherPrice>, m: int, j: int, k: int)
    requires
        0 <= j <= k <= s.len(),
    ensures
        sq_dev_prefix(s, m, j) <= sq_dev_prefix(s, m, k),
    decreases k - j,
{
    if j < k {
        lemma_sq_dev_prefix_monotone(s, m, j, k - 1);
        let d = s[k - 1].price - m;
        let w = s[k - 1].stake as int;
        assert(w * (d * d) >= 0) by (nonlinear_arith)
            requires
                w >= 0,
        ;
    }
}

/// Confidence of a consensus price `median`: the stake-weighted
/// root-mean-square deviation of the entries from it, never below 1.
pub fn calculate_confidence_safe(prices: &Vec<PublisherPrice>, median: i64) -> (r: Result<
    u64,
    ErrorCode,
>)
    requires
        prices_positive(prices@),
        prices@.len() <= u64::MAX,
    ensures
        confidence_overflows(prices@, median as int) ==> r == Err::<u64, ErrorCode>(
            ErrorCode::Overflow,
        ),
        !confidence_overflows(prices@, median as int) ==> r == Ok::<u64, ErrorCode>(
            confidence_value(prices@, median as int) as u64,
        ),
        r is Ok ==> r->Ok_0 >= 1 && r->Ok_0 == confidence_value(prices@, median as int),
{
    let n = prices.len();
    let mut total: u128 = 0;
    let mut i: usize = 0;
    while i < n
        invariant
            n == prices@.len(),
            n <= u64::MAX,
            0 <= i <= n,
            total == stake_prefix(prices@, i as int),
        decreases n - i,
    {
        proof {
            lemma_stake_prefix_bounds(prices@, i + 1);
            assert((i + 1) * (u64::MAX as int) <= (u64::MAX as int) * (u64::MAX as int))
                by (nonlinear_arith)
                requires
                    i + 1 <= u64::MAX,
            ;
        }
        total = total + prices[i].stake as u128;
        i = i + 1;
    }
    if total == 0 {
        return Ok(1);
    }
    let mut sum: u128 = 0;
    let mut i: usize = 0;
    while i < n
        invariant
            n == prices@.len(),
            0 <= i <= n,
            prices_positive(prices@),
            total == total_stake(prices@),
            total > 0,
            sum == sq_dev_prefix(prices@, median as int, i as int),
        decreases n - i,
    {
        let p = prices[i].price;
        let diff: i128 = p as i128 - median as i128;
        let dist: u128 = if diff >= 0 {
            diff as u128
        } else {
            (-diff) as u128
        };
        assert(dist * dist <= 0xffff_ffff_ffff_ffffu128 * 0xffff_ffff_ffff_ffffu128)
            by (nonlinear_arith)
            requires
                0 <= dist <= 0xffff_ffff_ffff_ffffu128,
        ;
        let square: u128 = dist * dist;
        proof {
            assert(square == (p - median) * (p - median)) by (nonlinear_arith)
                requires
                    dist == abs(p - median),
                    square == dist * dist,
            ;
            lemma_sq_dev_prefix_monotone(prices@, median as int, i + 1, n as int);
        }
        let term = match square.checked_mul(prices[i].stake as u128) {
            Some(t) => t,
            None => {
                proof {
                    let w = prices@[i as int].stake as int;
                    assert(w * square == square * w) by (nonlinear_arith);
                }
                return Err(ErrorCode::Overflow);
            },
        };
        proof {
            assert(term == prices@[i as int].stake * square) by (nonlinear_arith)
                requires
                    term == square * prices@[i as int].stake,
            ;
        }
        sum = match sum.checked_add(term) {
            Some(t) => t,
            None => {
                return Err(ErrorCode::Overflow);
            },
        };
        i = i + 1;
    }
    let variance = sum / total;
    let root = isqrt(variance);
    if root < 1 {
        Ok(1)
    } else {
        Ok(root)
    }
}

/// Latest timestamp among the entries (`i64::MIN` for none).
pub open spec fn max_timestamp(s: Seq<PublisherPrice>) -> int
    decreases s.len(),
{
    if s.len() == 0 {
        i64::MIN as int
    } else {
        let rest = max_timestamp(s.drop_last());
        if s.last().timestamp > rest {
            s.last().timestamp as int
        } else {
            rest
        }
    }
}

/// Status of a feed whose fresh entries are `s`: Unknown below
/// `min_publishers` entries, else Halted when the latest of them is more than
/// the halted threshold old, else Trading.
pub open spec fn status_of(s: Seq<PublisherPrice>, min_publishers: int, now: int) -> PriceStatus {
    if s.len() < min_publishers {
        PriceStatus::Unknown
    } else if s.len() > 0 && now - max_timestamp(s) > HALTED_THRESHOLD {
        PriceStatus::Halted
    } else {
        PriceStatus::Trading
    }
}

/// Derives the trading status from the fresh entries, before outlier rejection.
pub fn determine_status_optimized(prices: &Vec<PublisherPrice>, min_publishers: u8, current_time: i64) -> (r:
    PriceStatus)
    ensures
        r == status_of(prices@, min_publishers as int, current_time as int),
{
    let n = prices.len();
    if n < min_publishers as usize {
        return PriceStatus::Unknown;
    }
    let mut latest: i64 = i64::MIN;
    let mut i: usize = 0;
    while i < n
        invariant
            n == prices@.len(),
            0 <= i <= n,
            latest == max_timestamp(prices@.subrange(0, i as int)),
        decreases n - i,
    {
        proof {
            let t = prices@.subrange(0, i + 1);
            assert(t.drop_last() =~= prices@.subrange(0, i as int));
        }
        if prices[i].timestamp > latest {
            latest = prices[i].timestamp;
        }
        i = i + 1;
    }
    proof {
        assert(prices@.subrange(0, n as int) =~= prices@);
    }
    if n > 0 && current_time as i128 - latest as i128 > HALTED_THRESHOLD as i128 {
        return PriceStatus::Halted;
    }
    PriceStatus::Trading
}

/// `a / b` rounded toward zero, as machine division does.
pub open spec fn trunc_div(a: int, b: int) -> int {
    if a >= 0 {
        a / b
    } else {
        -((-a) / b)
    }
}

/// One smoothing step: `(α·value + (1−α)·previous) / scale`, α = 0.1 scaled.
pub open spec fn ema_step(previous: int, value: int) -> int {
    trunc_div(
        EMA_ALPHA_SCALED * value + (EMA_SCALE - EMA_ALPHA_SCALED) * previous,
        EMA_SCALE as int,
    )
}

/// The moving average after observing `price` and `confidence`.
pub open spec fn ema_next(e: EmaData, price: int, confidence: int) -> EmaData {
    if e.num_observations == 0 {
        EmaData { ema_price: price as i64, ema_confidence: confidence as u64, num_observations: 1 }
    } else {
        EmaData {
            ema_price: ema_step(e.ema_price as int, price) as i64,
            ema_confidence: ema_step(e.ema_confidence as int, confidence) as u64,
            num_observations: if e.num_observations == u64::MAX {
                u64::MAX
            } else {
                (e.num_observations + 1) as u64
            },
        }
    }
}

/// Folds a new consensus price and confidence into the moving average: the
/// first observation is taken as it is, later ones are smoothed.
pub fn update_ema(current_ema: &EmaData, new_price: i64, new_confidence: u64) -> (r: EmaData)
    ensures
        r == ema_next(*current_ema, new_price as int, new_confidence as int),
        current_ema.num_observations == 0 ==> r.ema_price == new_price && r.ema_confidence
            == new_confidence && r.num_observations == 1,
        current_ema.num_observations > 0 ==> r.ema_price == ema_step(
            current_ema.ema_price as int,
            new_price as int,
        ) && r.ema_confidence == ema_step(
            current_ema.ema_confidence as int,
            new_confidence as int,
        ) && r.num_observations == (if current_ema.num_observations == u64::MAX {
            u64::MAX as int
        } else {
            current_ema.num_observations + 1
        }),
{
    if current_ema.num_observations == 0 {
        return EmaData { ema_price: new_price, ema_confidence: new_confidence, num_observations: 1 };
    }
    let one_minus_alpha = EMA_SCALE - EMA_ALPHA_SCALED;
    let p = new_price as i128;
    let q = current_ema.ema_price as i128;
    assert(-0x8000_0000_0000_0000i128 * 1_000_000 <= 100_000 * p + 900_000 * q
        <= 0x7fff_ffff_ffff_ffffi128 * 1_000_000) by (nonlinear_arith)
        requires
            -0x8000_0000_0000_0000i128 <= p <= 0x7fff_ffff_ffff_ffffi128,
            -0x8000_0000_0000_0000i128 <= q <= 0x7fff_ffff_ffff_ffffi128,
    ;
    let num = EMA_ALPHA_SCALED as i128 * p + one_minus_alpha as i128 * q;
    let ema_price: i64 = if num >= 0 {
        (num / 1_000_000) as i64
    } else {
        assert((-num) / 1_000_000 <= 0x8000_0000_0000_0000i128) by (nonlinear_arith)
            requires
                0 < -num <= 0x8000_0000_0000_0000i128 * 1_000_000,
        ;
        (-((-num) / 1_000_000)) as i64
    };
    assert(num == EMA_ALPHA_SCALED * new_price + (EMA_SCALE - EMA_ALPHA_SCALED)
        * current_ema.ema_price);
    assert(ema_price == ema_step(current_ema.ema_price as int, new_price as int));
    let c = new_confidence as u128;
    let d = current_ema.ema_confidence as u128;
    assert(100_000 * c + 900_000 * d <= 0xffff_ffff_ffff_ffffu128 * 1_000_000) by (nonlinear_arith)
        requires
            c <= 0xffff_ffff_ffff_ffffu128,
            d <= 0xffff_ffff_ffff_ffffu128,
    ;
    let cnum = EMA_ALPHA_SCALED as u128 * c + one_minus_alpha as u128 * d;
    let ema_confidence = (cnum / 1_000_000) as u64;
    assert(ema_confidence == ema_step(
        current_ema.ema_confidence as int,
        new_confidence as int,
    ));
    EmaData {
        ema_price,
        ema_confidence,
        num_observations: current_ema.num_observations.saturating_add(1),
    }
}


/// Fewer than three entries are never rejected as outliers, however spread.
pub proof fn lemma_small_sets_keep_all(s: Seq<PublisherPrice>)
    requires
        s.len() < 3,
    ensures
        outlier_filter(s) == s,
{
}

/// From three entries on, an entry survives outlier rejection exactly when
/// its price lies within three MADs of the median price.
pub proof fn lemma_outlier_rule(s: Seq<PublisherPrice>)
    requires
        s.len() >= 3,
        sorted_by_price(s),
        prices_positive(s),
    ensures
        forall|e: PublisherPrice| #[trigger]
            outlier_filter(s).contains(e) ==> abs(e.price - median_price(s)) <= 3 * mad(s),
        forall|i: int|
            0 <= i < s.len() ==> (outlier_filter(s).contains(#[trigger] s[i]) <==> abs(
                s[i].price - median_price(s),
            ) <= 3 * mad(s)),
{
    lemma_mad_nonnegative(s);
    let m = median_price(s);
    let t = outlier_threshold(s);
    lemma_keep_within(s, m, t);
    assert(s[s.len() as int / 2].price > 0);
    assert forall|i: int| 0 <= i < s.len() implies (outlier_filter(s).contains(#[trigger] s[i])
        <==> abs(s[i].price - m) <= 3 * mad(s)) by {
        assert(s[i].price > 0);
        if abs(s[i].price - m) <= 3 * mad(s) {
            assert(abs(s[i].price - m) <= t);
        }
    }
}

/// The stake-weighted median is the price of one of the entries, never a
/// value between two of them.
pub proof fn lemma_weighted_median_is_an_entry(s: Seq<PublisherPrice>)
    requires
        s.len() > 0,
    ensures
        exists|i: int| 0 <= i < s.len() && weighted_median(s) == #[trigger] s[i].price,
{
    lemma_first_crossing_range(s, half_stake(s), 0);
    let k = weighted_median_index(s);
    assert(weighted_median(s) == s[k].price);
}

/// The reported confidence is never 0.
pub proof fn lemma_confidence_at_least_one(s: Seq<PublisherPrice>, m: int)
    ensures
        confidence_value(s, m) >= 1,
{
}

/// Halted needs the size criterion of Trading and a latest fresh timestamp
/// more than the halted threshold old; below the size criterion the status
/// is Unknown, however old the entries.
pub proof fn lemma_status_rule(s: Seq<PublisherPrice>, min_publishers: int, now: int)
    ensures
        status_of(s, min_publishers, now) == PriceStatus::Halted ==> s.len() >= min_publishers
            && now - max_timestamp(s) > HALTED_THRESHOLD,
        s.len() < min_publishers ==> status_of(s, min_publishers, now) == PriceStatus::Unknown,
        s.len() >= min_publishers && s.len() > 0 && now - max_timestamp(s) > HALTED_THRESHOLD
            ==> status_of(s, min_publishers, now) == PriceStatus::Halted,
{
}

} // verus!

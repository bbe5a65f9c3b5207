//! Price feeds: the submission table of a product and its aggregation into a
//! consensus price, confidence, status and moving average.
use vstd::prelude::*;

use crate::global::GlobalState;
use crate::stake::PublisherAccount;
use crate::stats::{
    calculate_confidence_safe, calculate_stake_weighted_median_optimized, confidence_overflows,
    confidence_value, determine_status_optimized, filter_outliers_optimized, outlier_filter,
    prices_positive, sort_by_price, sorted_by_price, status_of, update_ema, ema_next,
    weighted_median,
};
use crate::types::{
    AssetType, EmaData, ErrorCode, PriceData, PriceStatus, PriceType, PriceUpdated, Pubkey,
    PublisherPrice,
};
use crate::{MAX_PUBLISHERS, STALENESS_THRESHOLD};

verus! {

/// A tracked instrument.
#[derive(Clone, Debug)]
pub struct ProductAccount {
    pub symbol: String,
    pub asset_type: AssetType,
    pub description: String,
    pub price_account: Pubkey,
    pub authority: Pubkey,
    pub bump: u8,
}

/// A product's feed: its submission slots, aggregate and moving average.
#[derive(Clone, Debug)]
pub struct PriceAccount {
    pub product_account: Pubkey,
    pub price_type: PriceType,
    pub aggregate: PriceData,
    /// `MAX_PUBLISHERS` slots; a slot is reused by overwriting, never freed.
    pub publishers: Vec<PublisherPrice>,
    pub publisher_count: u8,
    pub min_publishers: u8,
    pub last_update_slot: u64,
    pub ema: EmaData,
    pub authority: Pubkey,
    pub exponent: i32,
    pub bump: u8,
}

/// Number of slots in use.
pub open spec fn active_count(s: Seq<PublisherPrice>) -> int
    decreases s.len(),
{
    if s.len() == 0 {
        0
    } else {
        active_count(s.drop_last()) + if s.last().active {
            1int
        } else {
            0int
        }
    }
}

/// Slots in use hold a positive price and timestamp, one slot per publisher.
pub open spec fn slots_valid(s: Seq<PublisherPrice>) -> bool {
    &&& forall|i: int| 0 <= i < s.len() && s[i].active ==> s[i].price > 0 && s[i].timestamp > 0
    &&& forall|i: int, j: int|
        0 <= i < s.len() && 0 <= j < s.len() && i != j && s[i].active && s[j].active
            ==> s[i].publisher.bytes@ != s[j].publisher.bytes@
}

impl PriceAccount {
    /// The feed's invariant.
    pub open spec fn wf(&self) -> bool {
        &&& self.publishers@.len() == MAX_PUBLISHERS
        &&& self.publisher_count == active_count(self.publishers@)
        &&& slots_valid(self.publishers@)
    }
}

impl PriceAccount {
    /// Tests the feed's invariant, for callers that hold a feed the library
    /// did not build.
    pub fn is_well_formed(&self) -> (r: bool)
        ensures
            r == self.wf(),
    {
        if self.publishers.len() != MAX_PUBLISHERS {
            return false;
        }
        let n = self.publishers.len();
        let mut count: usize = 0;
        let mut i: usize = 0;
        while i < n
            invariant
                n == self.publishers@.len(),
                n == MAX_PUBLISHERS,
                0 <= i <= n,
                count == active_count(self.publishers@.subrange(0, i as int)),
                count <= i,
                forall|a: int| 0 <= a < i && self.publishers@[a].active ==> self.publishers@[a].price > 0 && self.publishers@[a].timestamp > 0,
                forall|a: int, b: int|
                    0 <= a < i && 0 <= b < i && a != b && self.publishers@[a].active && self.publishers@[b].active
                        ==> self.publishers@[a].publisher.bytes@ != self.publishers@[b].publisher.bytes@,
            decreases n - i,
        {
            let e = self.publishers[i];
            proof {
                assert(self.publishers@.subrange(0, i + 1).drop_last() =~= self.publishers@.subrange(0, i as int));
            }
            if e.active {
                if e.price <= 0 || e.timestamp <= 0 {
                    proof {
                        let k = i as int;
                        assert(0 <= k < self.publishers@.len() && self.publishers@[k].active && !(self.publishers@[k].price > 0
                            && self.publishers@[k].timestamp > 0));
                        assert(!slots_valid(self.publishers@));
                    }
                    return false;
                }
                let mut j: usize = 0;
                while j < i
                    invariant
                        n == self.publishers@.len(),
                        0 <= j <= i < n,
                        e == self.publishers@[i as int],
                        e.active,
                        forall|b: int| 0 <= b < j && self.publishers@[b].active ==> self.publishers@[b].publisher.bytes@
                            != e.publisher.bytes@,
                    decreases i - j,
                {
                    if is_own_entry(&self.publishers[j], &e.publisher) {
                        proof {
                            let a = j as int;
                            let b = i as int;
                            assert(a != b && self.publishers@[a].active && self.publishers@[b].active
                                && self.publishers@[a].publisher.bytes@ == self.publishers@[b].publisher.bytes@);
                            assert(!slots_valid(self.publishers@));
                        }
                        return false;
                    }
                    j = j + 1;
                }
                count = count + 1;
            }
            i = i + 1;
        }
        proof {
            assert(self.publishers@.subrange(0, n as int) =~= self.publishers@);
        }
        count == self.publisher_count as usize
    }
}

/// A slot in use whose observation is younger than the staleness threshold.
pub open spec fn is_fresh(e: PublisherPrice, now: int) -> bool {
    e.active && now - e.timestamp < STALENESS_THRESHOLD
}

/// The fresh entries of a submission table, in slot order.
pub open spec fn fresh_entries(s: Seq<PublisherPrice>, now: int) -> Seq<PublisherPrice>
    decreases s.len(),
{
    if s.len() == 0 {
        s
    } else {
        let rest = fresh_entries(s.drop_last(), now);
        if is_fresh(s.last(), now) {
            rest.push(s.last())
        } else {
            rest
        }
    }
}

/// The aggregate left in place with only its status set to Unknown.
pub open spec fn marked_unknown(pre: PriceData) -> PriceData {
    PriceData { status: PriceStatus::Unknown, ..pre }
}

/// Outcome of aggregating fresh entries `fresh`, taken in the price order `t`.
pub open spec fn outcome_for_order(
    t: Seq<PublisherPrice>,
    fresh: Seq<PublisherPrice>,
    min_publishers: int,
    exponent: i32,
    now: i64,
    slot: u64,
    product: Pubkey,
    symbol: Seq<char>,
    pre_agg: PriceData,
    pre_ema: EmaData,
    post_agg: PriceData,
    post_ema: EmaData,
    r: Result<Option<PriceUpdated>, ErrorCode>,
) -> bool {
    let kept = outlier_filter(t);
    if kept.len() < min_publishers {
        &&& r == Ok::<Option<PriceUpdated>, ErrorCode>(None)
        &&& post_agg == marked_unknown(pre_agg)
        &&& post_ema == pre_ema
    } else if confidence_overflows(kept, weighted_median(kept)) {
        &&& r == Err::<Option<PriceUpdated>, ErrorCode>(ErrorCode::Overflow)
        &&& post_agg == pre_agg
        &&& post_ema == pre_ema
    } else {
        let price = weighted_median(kept);
        let confidence = confidence_value(kept, price);
        let status = status_of(fresh, min_publishers, now as int);
        &&& post_agg == (PriceData {
            price: price as i64,
            confidence: confidence as u64,
            exponent,
            timestamp: now,
            slot,
            status,
        })
        &&& post_ema == ema_next(pre_ema, price, confidence)
        &&& r is Ok
        &&& r->Ok_0 is Some
        &&& r->Ok_0->Some_0.product == product
        &&& r->Ok_0->Some_0.symbol@ == symbol
        &&& r->Ok_0->Some_0.price == price
        &&& r->Ok_0->Some_0.confidence == confidence
        &&& r->Ok_0->Some_0.timestamp == now
        &&& r->Ok_0->Some_0.slot == slot
        &&& r->Ok_0->Some_0.status == status
    }
}

/// Outcome of aggregating the submission table `slots` at time `now`: with no
/// fresh entry only the status changes (to Unknown); otherwise the fresh
/// entries, ordered by price, go through outlier rejection, the stake-weighted
/// median and the confidence.
pub open spec fn aggregate_outcome(
    slots: Seq<PublisherPrice>,
    min_publishers: int,
    exponent: i32,
    now: i64,
    slot: u64,
    product: Pubkey,
    symbol: Seq<char>,
    pre_agg: PriceData,
    pre_ema: EmaData,
    post_agg: PriceData,
    post_ema: EmaData,
    r: Result<Option<PriceUpdated>, ErrorCode>,
) -> bool {
    let fresh = fresh_entries(slots, now as int);
    if fresh.len() == 0 {
        &&& r == Ok::<Option<PriceUpdated>, ErrorCode>(None)
        &&& post_agg == marked_unknown(pre_agg)
        &&& post_ema == pre_ema
    } else {
        exists|t: Seq<PublisherPrice>|
            #![trigger outcome_for_order(t, fresh, min_publishers, exponent, now, slot, product, symbol, pre_agg, pre_ema, post_agg, post_ema, r)]
            sorted_by_price(t) && t.to_multiset() == fresh.to_multiset() && outcome_for_order(
                t,
                fresh,
                min_publishers,
                exponent,
                now,
                slot,
                product,
                symbol,
                pre_agg,
                pre_ema,
                post_agg,
                post_ema,
                r,
            )
    }
}

/// Everything of the feed but its aggregate and moving average is as before.
pub open spec fn same_but_aggregate(a: &PriceAccount, b: &PriceAccount) -> bool {
    &&& a.product_account == b.product_account
    &&& a.price_type == b.price_type
    &&& a.publishers@ == b.publishers@
    &&& a.publisher_count == b.publisher_count
    &&& a.min_publishers == b.min_publishers
    &&& a.last_update_slot == b.last_update_slot
    &&& a.authority == b.authority
    &&& a.exponent == b.exponent
    &&& a.bump == b.bump
}

pub proof fn lemma_fresh_entries_props(s: Seq<PublisherPrice>, now: int)
    requires
        slots_valid(s),
    ensures
        prices_positive(fresh_entries(s, now)),
        fresh_entries(s, now).len() <= s.len(),
    decreases s.len(),
{
    if s.len() > 0 {
        let d = s.drop_last();
        assert(slots_valid(d)) by {
            assert forall|i: int, j: int|
                0 <= i < d.len() && 0 <= j < d.len() && i != j && d[i].active && d[j].active
                    implies d[i].publisher.bytes@ != d[j].publisher.bytes@ by {
                assert(d[i] == s[i] && d[j] == s[j]);
            }
        }
        lemma_fresh_entries_props(d, now);
        let f = fresh_entries(s, now);
        let rest = fresh_entries(d, now);
        if is_fresh(s.last(), now) {
            assert forall|i: int| 0 <= i < f.len() implies f[i].price > 0 by {
                if i < rest.len() {
                    assert(f[i] == rest[i]);
                }
            }
        }
    }
}

pub proof fn lemma_perm_positive(a: Seq<PublisherPrice>, b: Seq<PublisherPrice>)
    requires
        a.to_multiset() == b.to_multiset(),
        prices_positive(a),
    ensures
        prices_positive(b),
        a.len() == b.len(),
{
    a.to_multiset_ensures();
    b.to_multiset_ensures();
    assert forall|i: int| 0 <= i < b.len() implies b[i].price > 0 by {
        assert(b.contains(b[i]));
        assert(b.to_multiset().count(b[i]) > 0);
        assert(a.contains(b[i]));
        let j = choose|j: int| 0 <= j < a.len() && a[j] == b[i];
        assert(a[j].price > 0);
    }
}

/// Recomputes the feed's aggregate and moving average from its fresh
/// submissions at time `current_time`; returns the price-updated notification
/// when a new aggregate was written. On failure the feed is left unchanged.
pub fn aggregate_prices_internal(
    price_account: &mut PriceAccount,
    symbol: &String,
    current_time: i64,
    slot: u64,
) -> (r: Result<Option<PriceUpdated>, ErrorCode>)
    requires
        old(price_account).wf(),
    ensures
        final(price_account).wf(),
        same_but_aggregate(final(price_account), old(price_account)),
        aggregate_outcome(
            old(price_account).publishers@,
            old(price_account).min_publishers as int,
            old(price_account).exponent,
            current_time,
            slot,
            old(price_account).product_account,
            symbol@,
            old(price_account).aggregate,
            old(price_account).ema,
            final(price_account).aggregate,
            final(price_account).ema,
            r,
        ),
{
    let n = price_account.publishers.len();
    let mut valid: Vec<PublisherPrice> = Vec::new();
    let mut i: usize = 0;
    while i < n
        invariant
            n == price_account.publishers@.len(),
            0 <= i <= n,
            valid@ == fresh_entries(price_account.publishers@.subrange(0, i as int), current_time as int),
        decreases n - i,
    {
        let e = price_account.publishers[i];
        proof {
            let t = price_account.publishers@.subrange(0, i + 1);
            assert(t.drop_last() =~= price_account.publishers@.subrange(0, i as int));
        }
        if e.active && (current_time as i128) - (e.timestamp as i128) < STALENESS_THRESHOLD as i128 {
            valid.push(e);
        }
        i = i + 1;
    }
    proof {
        assert(price_account.publishers@.subrange(0, n as int) =~= price_account.publishers@);
        lemma_fresh_entries_props(price_account.publishers@, current_time as int);
    }
    let ghost fresh = valid@;
    if valid.len() == 0 {
        price_account.aggregate.status = PriceStatus::Unknown;
        return Ok(None);
    }
    let sorted = sort_by_price(&valid);
    proof {
        lemma_perm_positive(valid@, sorted@);
    }
    let filtered = filter_outliers_optimized(&sorted);
    proof {
        crate::stats::lemma_outlier_filter_props(sorted@);
        assert forall|i: int| 0 <= i < filtered@.len() implies filtered@[i].price > 0 by {
            assert(filtered@.contains(filtered@[i]));
            let j = choose|j: int| 0 <= j < sorted@.len() && sorted@[j] == filtered@[i];
        }
    }
    if filtered.len() < price_account.min_publishers as usize {
        price_account.aggregate.status = PriceStatus::Unknown;
        proof {
            assert(outcome_for_order(sorted@, fresh, price_account.min_publishers as int,
                price_account.exponent, current_time, slot, price_account.product_account, symbol@,
                old(price_account).aggregate, old(price_account).ema, price_account.aggregate,
                price_account.ema, Ok(None)));
        }
        return Ok(None);
    }
    let median_price = match calculate_stake_weighted_median_optimized(&filtered) {
        Ok(p) => p,
        Err(e) => {
            return Err(e);
        },
    };
    let confidence = match calculate_confidence_safe(&filtered, median_price) {
        Ok(c) => c,
        Err(e) => {
            proof {
                assert(outcome_for_order(sorted@, fresh, price_account.min_publishers as int,
                    price_account.exponent, current_time, slot, price_account.product_account,
                    symbol@, old(price_account).aggregate, old(price_account).ema,
                    price_account.aggregate, price_account.ema, Err(e)));
            }
            return Err(e);
        },
    };
    let status = determine_status_optimized(&valid, price_account.min_publishers, current_time);
    price_account.aggregate = PriceData {
        price: median_price,
        confidence,
        exponent: price_account.exponent,
        timestamp: current_time,
        slot,
        status,
    };
    price_account.ema = update_ema(&price_account.ema, median_price, confidence);
    let event = PriceUpdated {
        product: price_account.product_account,
        symbol: symbol.clone(),
        price: median_price,
        confidence,
        timestamp: current_time,
        slot,
        status,
    };
    proof {
        let kept = outlier_filter(sorted@);
        assert(kept == filtered@);
        assert(median_price == weighted_median(kept));
        assert(confidence == confidence_value(kept, median_price as int));
        assert(status == status_of(fresh, price_account.min_publishers as int, current_time as int));
        assert(price_account.ema == ema_next(old(price_account).ema, median_price as int, confidence as int));
        assert(event.symbol@ == symbol@);
        assert(outcome_for_order(sorted@, fresh, price_account.min_publishers as int,
            price_account.exponent, current_time, slot, price_account.product_account, symbol@,
            old(price_account).aggregate, old(price_account).ema, price_account.aggregate,
            price_account.ema, Ok(Some(event))));
    }
    Ok(Some(event))
}


/// Slot `k` is in use by the publisher `key`.
pub open spec fn own_slot(s: Seq<PublisherPrice>, key: Pubkey, k: int) -> bool {
    0 <= k < s.len() && s[k].active && s[k].publisher.bytes@ == key.bytes@
}

/// Slot `k` is the first one not in use.
pub open spec fn first_free_slot(s: Seq<PublisherPrice>, k: int) -> bool {
    0 <= k < s.len() && !s[k].active && forall|j: int| 0 <= j < k ==> s[j].active
}

pub open spec fn has_own_slot(s: Seq<PublisherPrice>, key: Pubkey) -> bool {
    exists|k: int| own_slot(s, key, k)
}

pub open spec fn has_free_slot(s: Seq<PublisherPrice>) -> bool {
    exists|k: int| 0 <= k < s.len() && !s[k].active
}

/// The table after recording `e`: the publisher's own slot is overwritten,
/// else the first free slot is taken.
pub open spec fn record_submission(s: Seq<PublisherPrice>, e: PublisherPrice) -> Seq<
    PublisherPrice,
> {
    if has_own_slot(s, e.publisher) {
        s.update(choose|k: int| own_slot(s, e.publisher, k), e)
    } else {
        s.update(choose|k: int| first_free_slot(s, k), e)
    }
}

pub proof fn lemma_active_count_update(s: Seq<PublisherPrice>, k: int, e: PublisherPrice)
    requires
        0 <= k < s.len(),
    ensures
        active_count(s.update(k, e)) == active_count(s) - (if s[k].active {
            1int
        } else {
            0int
        }) + (if e.active {
            1int
        } else {
            0int
        }),
        0 <= active_count(s) <= s.len(),
    decreases s.len(),
{
    let u = s.update(k, e);
    if k == s.len() - 1 {
        assert(u.drop_last() =~= s.drop_last());
        lemma_active_count_bounds(s);
    } else {
        assert(u.drop_last() =~= s.drop_last().update(k, e));
        lemma_active_count_update(s.drop_last(), k, e);
    }
}

pub proof fn lemma_active_count_bounds(s: Seq<PublisherPrice>)
    ensures
        0 <= active_count(s) <= s.len(),
    decreases s.len(),
{
    if s.len() > 0 {
        lemma_active_count_bounds(s.drop_last());
    }
}

fn is_own_entry(e: &PublisherPrice, key: &Pubkey) -> (r: bool)
    ensures
        r == (e.active && e.publisher.bytes@ == key.bytes@),
{
    e.active && e.publisher.same(key)
}

/// Records a publisher's observation in the feed and, once enough publishers
/// report, re-aggregates. Returns the price-updated notification when a new
/// aggregate was written. A failure leaves the feed as it was.
pub fn update_price(
    global_state: &GlobalState,
    price_account: &mut PriceAccount,
    publisher: &PublisherAccount,
    symbol: &String,
    price: i64,
    confidence: u64,
    timestamp: i64,
    slot: u64,
) -> (r: Result<Option<PriceUpdated>, ErrorCode>)
    requires
        old(price_account).wf(),
    ensures
        final(price_account).wf(),
        global_state.paused ==> r == Err::<Option<PriceUpdated>, ErrorCode>(
            ErrorCode::SystemPaused,
        ),
        !global_state.paused && price <= 0 ==> r == Err::<Option<PriceUpdated>, ErrorCode>(
            ErrorCode::InvalidPrice,
        ),
        !global_state.paused && price > 0 && timestamp <= 0 ==> r == Err::<
            Option<PriceUpdated>,
            ErrorCode,
        >(ErrorCode::InvalidTimestamp),
        !global_state.paused && price > 0 && timestamp > 0 && !has_own_slot(
            old(price_account).publishers@,
            publisher.authority,
        ) && !has_free_slot(old(price_account).publishers@) ==> r == Err::<
            Option<PriceUpdated>,
            ErrorCode,
        >(ErrorCode::PublishersArrayFull),
        r is Err ==> same_but_aggregate(final(price_account), old(price_account)) && final(price_account).aggregate == old(price_account).aggregate && final(price_account).ema == old(price_account).ema,
        ({
            let e = PublisherPrice {
                publisher: publisher.authority,
                price,
                confidence,
                timestamp,
                slot,
                stake: publisher.staked_amount,
                active: true,
            };
            let slots = record_submission(old(price_account).publishers@, e);
            let count = old(price_account).publisher_count + if has_own_slot(
                old(price_account).publishers@,
                publisher.authority,
            ) {
                0int
            } else {
                1int
            };
            !global_state.paused && price > 0 && timestamp > 0 && (has_own_slot(
                old(price_account).publishers@,
                publisher.authority,
            ) || has_free_slot(old(price_account).publishers@)) ==> {
                &&& count < old(price_account).min_publishers ==> r == Ok::<
                    Option<PriceUpdated>,
                    ErrorCode,
                >(None) && final(price_account).aggregate == old(price_account).aggregate && final(price_account).ema == old(price_account).ema
                &&& count >= old(price_account).min_publishers ==> aggregate_outcome(
                    slots,
                    old(price_account).min_publishers as int,
                    old(price_account).exponent,
                    timestamp,
                    slot,
                    old(price_account).product_account,
                    symbol@,
                    old(price_account).aggregate,
                    old(price_account).ema,
                    final(price_account).aggregate,
                    final(price_account).ema,
                    r,
                )
                &&& r is Ok ==> final(price_account).publishers@ == slots && final(price_account).publisher_count == count && final(price_account).last_update_slot == slot
            }
        }),
{
    if global_state.paused {
        return Err(ErrorCode::SystemPaused);
    }
    if price <= 0 {
        return Err(ErrorCode::InvalidPrice);
    }
    if timestamp <= 0 {
        return Err(ErrorCode::InvalidTimestamp);
    }
    let entry = PublisherPrice {
        publisher: publisher.authority,
        price,
        confidence,
        timestamp,
        slot,
        stake: publisher.staked_amount,
        active: true,
    };
    let ghost old_slots = price_account.publishers@;
    let n = price_account.publishers.len();
    let mut i: usize = 0;
    while i < n && !is_own_entry(&price_account.publishers[i], &publisher.authority)
        invariant
            n == price_account.publishers@.len(),
            0 <= i <= n,
            forall|j: int| 0 <= j < i ==> !own_slot(price_account.publishers@, publisher.authority, j),
        decreases n - i,
    {
        i = i + 1;
    }
    let k: usize;
    let added: bool;
    if i < n {
        proof {
            assert(own_slot(old_slots, publisher.authority, i as int));
            let c = choose|c: int| own_slot(old_slots, publisher.authority, c);
            if c != i {
                assert(old_slots[c].publisher.bytes@ != old_slots[i as int].publisher.bytes@);
            }
            assert(has_own_slot(old_slots, publisher.authority));
        }
        k = i;
        added = false;
    } else {
        let mut j: usize = 0;
        while j < n && price_account.publishers[j].active
            invariant
                n == price_account.publishers@.len(),
                0 <= j <= n,
                forall|a: int| 0 <= a < j ==> price_account.publishers@[a].active,
            decreases n - j,
        {
            j = j + 1;
        }
        if j == n {
            return Err(ErrorCode::PublishersArrayFull);
        }
        proof {
            assert(first_free_slot(old_slots, j as int));
            let c = choose|c: int| first_free_slot(old_slots, c);
            if c < j {
                assert(old_slots[c].active);
            } else if c > j {
                assert(old_slots[j as int].active);
            }
            assert(!has_own_slot(old_slots, publisher.authority));
        }
        k = j;
        added = true;
    }
    let previous = price_account.publishers[k];
    let previous_count = price_account.publisher_count;
    let previous_last = price_account.last_update_slot;
    proof {
        lemma_active_count_update(old_slots, k as int, entry);
    }
    price_account.publishers.set(k, entry);
    if added {
        price_account.publisher_count = price_account.publisher_count + 1;
    }
    price_account.last_update_slot = slot;
    proof {
        assert(price_account.publishers@ == record_submission(old_slots, entry));
        let s = price_account.publishers@;
        assert forall|a: int, b: int|
            0 <= a < s.len() && 0 <= b < s.len() && a != b && s[a].active && s[b].active
                implies s[a].publisher.bytes@ != s[b].publisher.bytes@ by {
            if a == k {
                assert(!own_slot(old_slots, publisher.authority, b) || !added);
            } else if b == k {
                assert(!own_slot(old_slots, publisher.authority, a) || !added);
            }
        }
    }
    if price_account.publisher_count >= price_account.min_publishers {
        let r = aggregate_prices_internal(price_account, symbol, timestamp, slot);
        if r.is_err() {
            price_account.publishers.set(k, previous);
            price_account.publisher_count = previous_count;
            price_account.last_update_slot = previous_last;
            proof {
                assert(price_account.publishers@ =~= old_slots);
            }
        }
        return r;
    }
    Ok(None)
}

/// Recomputes the aggregate of a product's feed on demand.
pub fn aggregate_price(
    price_account: &mut PriceAccount,
    product_account: &ProductAccount,
    current_time: i64,
    slot: u64,
) -> (r: Result<Option<PriceUpdated>, ErrorCode>)
    requires
        old(price_account).wf(),
    ensures
        final(price_account).wf(),
        same_but_aggregate(final(price_account), old(price_account)),
        aggregate_outcome(
            old(price_account).publishers@,
            old(price_account).min_publishers as int,
            old(price_account).exponent,
            current_time,
            slot,
            old(price_account).product_account,
            product_account.symbol@,
            old(price_account).aggregate,
            old(price_account).ema,
            final(price_account).aggregate,
            final(price_account).ema,
            r,
        ),
{
    aggregate_prices_internal(price_account, &product_account.symbol, current_time, slot)
}


proof fn lemma_no_active(s: Seq<PublisherPrice>)
    requires
        forall|i: int| 0 <= i < s.len() ==> !s[i].active,
    ensures
        active_count(s) == 0,
    decreases s.len(),
{
    if s.len() > 0 {
        lemma_no_active(s.drop_last());
    }
}

/// Creates a product and its empty feed: every slot free, no aggregate yet.
pub fn create_product(
    global_state: &mut GlobalState,
    symbol: String,
    asset_type: AssetType,
    description: String,
    price_type: PriceType,
    min_publishers: u8,
    exponent: i32,
    product_address: Pubkey,
    price_address: Pubkey,
    authority: Pubkey,
    bumps: (u8, u8),
) -> (r: Result<(ProductAccount, PriceAccount), ErrorCode>)
    ensures
        old(global_state).paused ==> r == Err::<(ProductAccount, PriceAccount), ErrorCode>(
            ErrorCode::SystemPaused,
        ),
        !old(global_state).paused && old(global_state).total_products == u64::MAX ==> r == Err::<
            (ProductAccount, PriceAccount),
            ErrorCode,
        >(ErrorCode::Overflow),
        !old(global_state).paused && old(global_state).total_products < u64::MAX ==> r is Ok,
        r is Err ==> *final(global_state) == *old(global_state),
        r is Ok ==> {
            let (product, feed) = r->Ok_0;
            &&& !old(global_state).paused
            &&& *final(global_state) == (GlobalState {
                total_products: (old(global_state).total_products + 1) as u64,
                ..*old(global_state)
            })
            &&& product.symbol@ == symbol@ && product.asset_type == asset_type
            &&& product.description@ == description@ && product.price_account == price_address
            &&& product.authority == authority && product.bump == bumps.0
            &&& feed.wf() && feed.publisher_count == 0
            &&& forall|i: int| 0 <= i < feed.publishers@.len() ==> !(#[trigger] feed.publishers@[i]).active
            &&& feed.product_account == product_address && feed.price_type == price_type
            &&& feed.aggregate.status == PriceStatus::Unknown && feed.aggregate.price == 0
            &&& feed.min_publishers == min_publishers && feed.last_update_slot == 0
            &&& feed.ema.num_observations == 0 && feed.ema.ema_price == 0
            &&& feed.ema.ema_confidence == 0
            &&& feed.authority == authority && feed.exponent == exponent && feed.bump == bumps.1
        },
{
    if global_state.paused {
        return Err(ErrorCode::SystemPaused);
    }
    let total = match global_state.total_products.checked_add(1) {
        Some(t) => t,
        None => {
            return Err(ErrorCode::Overflow);
        },
    };
    let mut publishers: Vec<PublisherPrice> = Vec::new();
    let mut i: usize = 0;
    while i < MAX_PUBLISHERS
        invariant
            0 <= i <= MAX_PUBLISHERS,
            publishers@.len() == i,
            forall|j: int| 0 <= j < i ==> !(#[trigger] publishers@[j]).active,
        decreases MAX_PUBLISHERS - i,
    {
        publishers.push(PublisherPrice::default());
        i = i + 1;
    }
    proof {
        lemma_no_active(publishers@);
    }
    global_state.total_products = total;
    let product = ProductAccount {
        symbol,
        asset_type,
        description,
        price_account: price_address,
        authority,
        bump: bumps.0,
    };
    let feed = PriceAccount {
        product_account: product_address,
        price_type,
        aggregate: PriceData::default(),
        publishers,
        publisher_count: 0,
        min_publishers,
        last_update_slot: 0,
        ema: EmaData::default(),
        authority,
        exponent,
        bump: bumps.1,
    };
    Ok((product, feed))
}

/// With fewer fresh entries than the feed's minimum, aggregation only sets
/// the status to Unknown: the aggregate price and the moving average stay.
pub proof fn lemma_too_few_fresh_keeps_price(
    slots: Seq<PublisherPrice>,
    min_publishers: int,
    exponent: i32,
    now: i64,
    slot: u64,
    product: Pubkey,
    symbol: Seq<char>,
    pre_agg: PriceData,
    pre_ema: EmaData,
    post_agg: PriceData,
    post_ema: EmaData,
    r: Result<Option<PriceUpdated>, ErrorCode>,
)
    requires
        aggregate_outcome(
            slots,
            min_publishers,
            exponent,
            now,
            slot,
            product,
            symbol,
            pre_agg,
            pre_ema,
            post_agg,
            post_ema,
            r,
        ),
        fresh_entries(slots, now as int).len() < min_publishers,
    ensures
        post_agg.status == PriceStatus::Unknown,
        post_agg.price == pre_agg.price,
        post_agg == marked_unknown(pre_agg),
        post_ema == pre_ema,
        r == Ok::<Option<PriceUpdated>, ErrorCode>(None),
{
    let fresh = fresh_entries(slots, now as int);
    if fresh.len() > 0 {
        let t = choose|t: Seq<PublisherPrice>|
            sorted_by_price(t) && t.to_multiset() == fresh.to_multiset() && outcome_for_order(
                t,
                fresh,
                min_publishers,
                exponent,
                now,
                slot,
                product,
                symbol,
                pre_agg,
                pre_ema,
                post_agg,
                post_ema,
                r,
            );
        t.to_multiset_ensures();
        fresh.to_multiset_ensures();
        crate::stats::lemma_outlier_filter_props(t);
    }
}

} // verus!

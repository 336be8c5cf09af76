//! What the ring of past prices holds after any number of refreshes.
//!
//! The record itself stores at most [`TWAP_SIZE`] prices. The statements here
//! relate it to the whole sequence of spot prices that were ever recorded.

use vstd::prelude::*;
use crate::state::{mean, sum, lemma_mean_bound, Clock, PriceOracle, Reading, TWAP_SIZE};

verus! {

/// The prices that still count: the last [`TWAP_SIZE`] of `prices`, or all of
/// them while there are fewer.
pub open spec fn recent(prices: Seq<u64>) -> Seq<u64> {
    if prices.len() <= TWAP_SIZE {
        prices
    } else {
        prices.subrange(prices.len() - TWAP_SIZE, prices.len() as int)
    }
}

/// The spot prices of a sequence of refreshes, oldest first.
pub open spec fn spot_prices(refreshes: Seq<(Reading, Clock)>) -> Seq<u64> {
    refreshes.map_values(|r: (Reading, Clock)| r.0.0)
}

/// The record that `start` becomes when `refreshes` are applied, oldest first.
pub open spec fn replay(start: PriceOracle, refreshes: Seq<(Reading, Clock)>) -> PriceOracle
    decreases refreshes.len(),
{
    if refreshes.len() == 0 {
        start
    } else {
        replay(start, refreshes.drop_last()).updated(refreshes.last().0, refreshes.last().1)
    }
}

impl PriceOracle {
    /// The ring holds the recent part of `prices`: the price recorded as the
    /// `g`-th sits in slot `g mod TWAP_SIZE` for as long as it counts.
    pub open spec fn tracks(&self, prices: Seq<u64>) -> bool {
        &&& self.history_count == recent(prices).len()
        &&& self.history_idx == prices.len() % TWAP_SIZE as nat
        &&& forall|g: int|
            0 <= g < prices.len() && prices.len() - TWAP_SIZE <= g ==> self.price_history@[g
                % 10] == #[trigger] prices[g]
    }
}

proof fn lemma_sum_concat(a: Seq<u64>, b: Seq<u64>)
    ensures
        sum(a + b) == sum(a) + sum(b),
    decreases b.len(),
{
    if b.len() == 0 {
        assert(a + b =~= a);
    } else {
        assert((a + b).drop_last() =~= a + b.drop_last());
        lemma_sum_concat(a, b.drop_last());
    }
}

/// The valid entries of a ring that tracks `prices` add up to the sum of the
/// recent prices: the ring holds them in rotated order.
proof fn lemma_tracked_sum(oracle: PriceOracle, prices: Seq<u64>)
    requires
        oracle.tracks(prices),
    ensures
        oracle.filled().len() == recent(prices).len(),
        sum(oracle.filled()) == sum(recent(prices)),
{
    let len = prices.len() as int;
    let ring = oracle.price_history@;
    if len <= 10 {
        assert forall|i: int| 0 <= i < len implies oracle.filled()[i] == prices[i] by {
            assert(ring[i % 10] == prices[i]);
        }
        assert(oracle.filled() =~= prices);
    } else {
        let idx = oracle.history_idx as int;
        let window = recent(prices);
        let older = window.take(10 - idx);
        let newer = window.skip(10 - idx);
        assert(window =~= older + newer);
        assert forall|i: int| 0 <= i < 10 implies ring[i] == (newer + older)[i] by {
            let g = if i < idx {
                len - idx + i
            } else {
                len - 10 - idx + i
            };
            assert(g % 10 == i);
            assert(ring[g % 10] == prices[g]);
        }
        assert(oracle.filled() =~= newer + older);
        lemma_sum_concat(older, newer);
        lemma_sum_concat(newer, older);
    }
}

/// A refresh keeps the record's invariant.
pub proof fn lemma_updated_wf(oracle: PriceOracle, reading: Reading, clock: Clock)
    requires
        oracle.wf(),
        reading.0 > 0,
    ensures
        oracle.updated(reading, clock).wf(),
{
    lemma_mean_bound(oracle.updated(reading, clock).filled());
}

/// A refresh appends its spot price to what the ring tracks.
pub proof fn lemma_updated_tracks(
    oracle: PriceOracle,
    prices: Seq<u64>,
    reading: Reading,
    clock: Clock,
)
    requires
        oracle.wf(),
        oracle.tracks(prices),
    ensures
        oracle.updated(reading, clock).tracks(prices.push(reading.0)),
{
    let next = oracle.updated(reading, clock);
    let all = prices.push(reading.0);
    let len = prices.len() as int;
    assert forall|g: int| 0 <= g < all.len() && all.len() - 10 <= g implies next.price_history@[g
        % 10] == #[trigger] all[g] by {
        if g < len {
            assert(g % 10 != len % 10);
            assert(oracle.price_history@[g % 10] == prices[g]);
        }
    }
}

/// Ring buffer correctness. Start from a record with an empty history and
/// apply any number of refreshes with positive spot prices. Then the record
/// counts as many prices as were recorded, up to the capacity, and its
/// smoothed price is the exact truncated mean of the recent ones: of all of
/// them while the ring warms up, of the last [`TWAP_SIZE`] afterwards.
pub proof fn lemma_history_after_refreshes(start: PriceOracle, refreshes: Seq<(Reading, Clock)>)
    requires
        start.wf(),
        start.history_count == 0,
        forall|i: int| 0 <= i < refreshes.len() ==> (#[trigger] refreshes[i]).0.0 > 0,
    ensures
        replay(start, refreshes).wf(),
        replay(start, refreshes).tracks(spot_prices(refreshes)),
        replay(start, refreshes).history_count == if refreshes.len() <= TWAP_SIZE {
            refreshes.len()
        } else {
            TWAP_SIZE as nat
        },
        replay(start, refreshes).twap_e6 == mean(recent(spot_prices(refreshes))),
        replay(start, refreshes).admin == start.admin,
        replay(start, refreshes).pool == start.pool,
        replay(start, refreshes).slab == start.slab,
        replay(start, refreshes).bump == start.bump,
    decreases refreshes.len(),
{
    let prices = spot_prices(refreshes);
    if refreshes.len() == 0 {
        assert(recent(prices) =~= Seq::<u64>::empty());
        assert(start.filled() =~= Seq::<u64>::empty());
    } else {
        let before = replay(start, refreshes.drop_last());
        let last = refreshes.last();
        lemma_history_after_refreshes(start, refreshes.drop_last());
        assert(last.0.0 > 0);
        assert(prices =~= spot_prices(refreshes.drop_last()).push(last.0.0));
        lemma_updated_wf(before, last.0, last.1);
        lemma_updated_tracks(before, spot_prices(refreshes.drop_last()), last.0, last.1);
        lemma_tracked_sum(replay(start, refreshes), prices);
    }
}

} // verus!

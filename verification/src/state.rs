//! The oracle's persistent record and its moving average.
//!
//! The record keeps the last spot prices in a ring of fixed capacity. While
//! fewer prices than the capacity have been recorded the ring is warming up;
//! once it is full it stays full, and each new price overwrites the oldest.

use vstd::prelude::*;
use crate::address::Address;

verus! {

/// Capacity of the price history.
pub const TWAP_SIZE: usize = 10;

/// What the host environment says of the present moment.
#[derive(Clone, Copy, Debug, PartialEq, Eq)]
pub struct Clock {
    /// The sequence tick: it never decreases.
    pub slot: u64,
    /// Wall-clock time in seconds.
    pub unix_timestamp: i64,
}

/// The results of one price computation, in this order: the spot price with
/// six decimals, the reserve ratio with nine decimals, the feed price with six
/// decimals, the base reserve and the quote reserve.
pub type Reading = (u64, u64, u64, u64, u64);

/// The persistent record of one oracle, bound to one pool.
#[derive(Clone, Copy, Debug, PartialEq, Eq)]
pub struct PriceOracle {
    /// The consumer's record that the smoothed price is published to.
    pub slab: Address,
    /// The exchange pool that the price is derived from.
    pub pool: Address,
    /// Last spot price, six decimals.
    pub price_e6: u64,
    /// Last reserve ratio, nine decimals.
    pub token_sol_e9: u64,
    /// Last feed price, six decimals.
    pub sol_usd_e6: u64,
    /// Wall-clock time of the last successful refresh.
    pub last_update: i64,
    /// Last base reserve read from the pool.
    pub base_reserve: u64,
    /// Last quote reserve read from the pool.
    pub quote_reserve: u64,
    /// Sequence tick of the last successful refresh.
    pub last_slot: u64,
    /// Ring of past spot prices.
    pub price_history: [u64; 10],
    /// Next slot of the ring to overwrite.
    pub history_idx: u8,
    /// Number of valid entries in the ring.
    pub history_count: u8,
    /// Mean of the valid entries: the value that is published.
    pub twap_e6: u64,
    /// Bump seed of the record's own derived address.
    pub bump: u8,
    /// The identity that may refresh while the ring warms up.
    pub admin: Address,
}

/// The sum of `prices`.
pub open spec fn sum(prices: Seq<u64>) -> nat
    decreases prices.len(),
{
    if prices.len() == 0 {
        0
    } else {
        sum(prices.drop_last()) + prices.last() as nat
    }
}

/// The truncated arithmetic mean of `prices`; of no prices it is zero.
pub open spec fn mean(prices: Seq<u64>) -> nat {
    if prices.len() == 0 {
        0
    } else {
        sum(prices) / prices.len()
    }
}

/// A sum of `n` 64-bit numbers is at most `n` times the largest of them.
pub proof fn lemma_sum_bound(prices: Seq<u64>)
    ensures
        sum(prices) <= prices.len() * u64::MAX,
    decreases prices.len(),
{
    if prices.len() > 0 {
        lemma_sum_bound(prices.drop_last());
    }
}

/// The mean of 64-bit numbers is a 64-bit number.
pub proof fn lemma_mean_bound(prices: Seq<u64>)
    ensures
        mean(prices) <= u64::MAX,
{
    if prices.len() > 0 {
        lemma_sum_bound(prices);
        let n = prices.len() as int;
        let s = sum(prices) as int;
        assert(s / n <= u64::MAX) by (nonlinear_arith)
            requires
                n > 0,
                0 <= s <= n * u64::MAX,
        ;
    }
}

impl PriceOracle {
    /// The valid entries of the ring, in the order of their slots.
    pub open spec fn filled(&self) -> Seq<u64> {
        self.price_history@.take(self.history_count as int)
    }

    /// The record's invariant: both cursors are in range, the ring fills from
    /// its first slot, the smoothed price is the mean of the valid entries,
    /// and the spot price is positive once a refresh has succeeded.
    pub open spec fn wf(&self) -> bool {
        &&& self.history_idx < TWAP_SIZE
        &&& self.history_count <= TWAP_SIZE
        &&& self.history_count < TWAP_SIZE ==> self.history_idx == self.history_count
        &&& self.twap_e6 == mean(self.filled())
        &&& self.history_count > 0 ==> self.price_e6 > 0
    }

    /// Whether the ring still holds fewer prices than its capacity.
    pub open spec fn warming(&self) -> bool {
        self.history_count < TWAP_SIZE
    }

    /// The record after a refresh that computed `reading` at `clock`.
    pub open spec fn updated(self, reading: Reading, clock: Clock) -> PriceOracle {
        let history = vstd::array::spec_array_update(
            self.price_history,
            self.history_idx as int,
            reading.0,
        );
        let count = if self.history_count < TWAP_SIZE {
            (self.history_count + 1) as u8
        } else {
            self.history_count
        };
        PriceOracle {
            price_e6: reading.0,
            token_sol_e9: reading.1,
            sol_usd_e6: reading.2,
            base_reserve: reading.3,
            quote_reserve: reading.4,
            last_update: clock.unix_timestamp,
            last_slot: clock.slot,
            price_history: history,
            history_idx: ((self.history_idx + 1) % 10) as u8,
            history_count: count,
            twap_e6: mean(history@.take(count as int)) as u64,
            ..self
        }
    }
}

/// The truncated mean of the first `count` entries of `history`; zero where
/// `count` is zero.
pub fn average(history: &[u64; 10], count: u8) -> (m: u64)
    requires
        count <= TWAP_SIZE,
    ensures
        m == mean(history@.take(count as int)),
{
    if count == 0 {
        return 0;
    }
    let n: usize = count as usize;
    let mut total: u128 = 0;
    let mut i: usize = 0;
    while i < n
        invariant
            i <= n <= 10,
            total == sum(history@.take(i as int)),
        decreases n - i,
    {
        proof {
            let next = history@.take(i + 1);
            assert(next.drop_last() =~= history@.take(i as int));
            lemma_sum_bound(history@.take(i as int));
        }
        total = total + (history[i] as u128);
        i = i + 1;
    }
    proof {
        lemma_mean_bound(history@.take(n as int));
    }
    (total / (n as u128)) as u64
}

impl PriceOracle {
    /// Tests the record's invariant.
    pub fn is_well_formed(&self) -> (b: bool)
        ensures
            b == self.wf(),
    {
        if self.history_idx >= TWAP_SIZE as u8 || self.history_count > TWAP_SIZE as u8 {
            return false;
        }
        if self.history_count < TWAP_SIZE as u8 && self.history_idx != self.history_count {
            return false;
        }
        if self.history_count > 0 && self.price_e6 == 0 {
            return false;
        }
        self.twap_e6 == average(&self.price_history, self.history_count)
    }
}

/// Folds one computed reading into the record: stores the reading and the
/// moment, writes the spot price over the oldest slot of the ring, advances
/// the cursor, and recomputes the smoothed price.
pub fn update_oracle_state(
    oracle: &mut PriceOracle,
    price_e6: u64,
    token_sol_e9: u64,
    sol_usd_e6: u64,
    base_reserve: u64,
    quote_reserve: u64,
    clock: &Clock,
)
    requires
        old(oracle).wf(),
        price_e6 > 0,
    ensures
        *final(oracle) == old(oracle).updated(
            (price_e6, token_sol_e9, sol_usd_e6, base_reserve, quote_reserve),
            *clock,
        ),
        final(oracle).wf(),
{
    oracle.price_e6 = price_e6;
    oracle.token_sol_e9 = token_sol_e9;
    oracle.sol_usd_e6 = sol_usd_e6;
    oracle.base_reserve = base_reserve;
    oracle.quote_reserve = quote_reserve;
    oracle.last_update = clock.unix_timestamp;
    oracle.last_slot = clock.slot;

    let idx: usize = oracle.history_idx as usize;
    oracle.price_history[idx] = price_e6;
    oracle.history_idx = ((idx + 1) % TWAP_SIZE) as u8;
    if oracle.history_count < TWAP_SIZE as u8 {
        oracle.history_count = oracle.history_count + 1;
    }
    oracle.twap_e6 = average(&oracle.price_history, oracle.history_count);
    proof {
        let expected = old(oracle).updated(
            (price_e6, token_sol_e9, sol_usd_e6, base_reserve, quote_reserve),
            *clock,
        );
        assert(oracle.price_history =~= expected.price_history);
        lemma_mean_bound(oracle.filled());
    }
}

} // verus!

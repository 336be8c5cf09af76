//! The checks that stand before the price computation.
//!
//! The checks run in a fixed order and stop at the first that fails. Each one
//! closes a way to feed the computation with data it must not trust: another
//! pool, reserve accounts that the pool does not name, accounts that the
//! token ledger or the publisher does not own, an empty reserve, another
//! feed, a price that is not positive, stale, or too uncertain.

use vstd::prelude::*;
use crate::account::AccountSnapshot;
use crate::address::Address;
use crate::engine::{base_price_e6, derive_price, engine_rejection, price_e6, token_per_base_e9};
use crate::error::OracleError;
use crate::layout::{
    field, holds_field, le_value, read_i32_le, read_i64_le, read_pubkey, read_u64_le,
    signed_value, POOL_BASE_TOKEN_OFFSET, POOL_MIN_LEN,
    POOL_QUOTE_TOKEN_OFFSET, PYTH_CONF_OFFSET, PYTH_EXPO_OFFSET, PYTH_FEED_ID_OFFSET,
    PYTH_MIN_LEN, PYTH_PRICE_OFFSET, PYTH_PUBLISH_TIME_OFFSET, SPL_AMOUNT_OFFSET,
};
use crate::programs::{
    is_publisher, is_publisher_program, is_token_ledger, is_token_program, SOL_USD_FEED_ID,
};
use crate::state::{Clock, Reading};

verus! {

/// Greatest age of a feed, in seconds.
pub const MAX_PYTH_STALENESS: i64 = 60;

/// The confidence times this factor must stay below the price: 20 stands for
/// a confidence of less than 5% of the price.
pub const MAX_CONF_RATIO_X20: u64 = 20;

/// The balance that a token account holds.
pub open spec fn reserve_of(token: AccountSnapshot) -> int {
    le_value(field(token.data@, SPL_AMOUNT_OFFSET as int, 8)) as int
}

/// The identifier that a feed account carries.
pub open spec fn feed_id(feed: AccountSnapshot) -> Seq<u8> {
    field(feed.data@, PYTH_FEED_ID_OFFSET as int, 32)
}

/// The raw signed price of a feed account.
pub open spec fn feed_price(feed: AccountSnapshot) -> int {
    signed_value(le_value(field(feed.data@, PYTH_PRICE_OFFSET as int, 8)), 8)
}

/// The confidence of a feed account, in the unit of its raw price.
pub open spec fn feed_confidence(feed: AccountSnapshot) -> int {
    le_value(field(feed.data@, PYTH_CONF_OFFSET as int, 8)) as int
}

/// The decimal exponent of a feed account.
pub open spec fn feed_exponent(feed: AccountSnapshot) -> int {
    signed_value(le_value(field(feed.data@, PYTH_EXPO_OFFSET as int, 4)), 4)
}

/// The time at which a feed account was published.
pub open spec fn feed_publish_time(feed: AccountSnapshot) -> int {
    signed_value(le_value(field(feed.data@, PYTH_PUBLISH_TIME_OFFSET as int, 8)), 8)
}

/// A feed published at `publish_time` is fresh at `now`: neither older than
/// [`MAX_PYTH_STALENESS`] nor from the future.
pub open spec fn fresh(now: int, publish_time: int) -> bool {
    0 <= now - publish_time <= MAX_PYTH_STALENESS
}

/// The confidence is narrow enough for the price.
pub open spec fn confident(confidence: int, price: int) -> bool {
    confidence * MAX_CONF_RATIO_X20 < price
}

/// The first check on the pool and its reserve accounts that fails, if any:
/// the pool is the expected one, its data is long enough, and it names the
/// two reserve accounts.
pub open spec fn pool_rejection(
    pool: AccountSnapshot,
    pool_base_token: AccountSnapshot,
    pool_quote_token: AccountSnapshot,
    expected_pool: Address,
) -> Option<OracleError> {
    if pool.key != expected_pool {
        Some(OracleError::PoolMismatch)
    } else if pool.data@.len() < POOL_MIN_LEN {
        Some(OracleError::AccountDataTooSmall)
    } else if pool_base_token.key@ != field(pool.data@, POOL_BASE_TOKEN_OFFSET as int, 32) {
        Some(OracleError::PoolTokenMismatch)
    } else if pool_quote_token.key@ != field(pool.data@, POOL_QUOTE_TOKEN_OFFSET as int, 32) {
        Some(OracleError::PoolTokenMismatch)
    } else {
        None
    }
}

/// The first check on the two reserve accounts that fails, if any: a token
/// ledger owns both, both hold a balance, and neither balance is zero.
pub open spec fn reserves_rejection(
    pool_base_token: AccountSnapshot,
    pool_quote_token: AccountSnapshot,
) -> Option<OracleError> {
    if !is_token_ledger(pool_base_token.owner) || !is_token_ledger(pool_quote_token.owner) {
        Some(OracleError::InvalidTokenOwner)
    } else if !holds_field(pool_base_token.data@, SPL_AMOUNT_OFFSET as int, 8) || !holds_field(
        pool_quote_token.data@,
        SPL_AMOUNT_OFFSET as int,
        8,
    ) {
        Some(OracleError::AccountDataTooSmall)
    } else if reserve_of(pool_base_token) == 0 || reserve_of(pool_quote_token) == 0 {
        Some(OracleError::ZeroReserve)
    } else {
        None
    }
}

/// The first check on the feed account that fails at time `now`, if any: a
/// publisher owns it, its data is long enough, it is the SOL/USD feed, its
/// price is positive, it is fresh, and its confidence is narrow.
pub open spec fn feed_rejection(feed: AccountSnapshot, now: int) -> Option<OracleError> {
    if !is_publisher(feed.owner) {
        Some(OracleError::InvalidPythOwner)
    } else if feed.data@.len() < PYTH_MIN_LEN {
        Some(OracleError::AccountDataTooSmall)
    } else if feed_id(feed) != SOL_USD_FEED_ID@ {
        Some(OracleError::InvalidPythFeedId)
    } else if feed_price(feed) <= 0 {
        Some(OracleError::InvalidPythPrice)
    } else if !fresh(now, feed_publish_time(feed)) {
        Some(OracleError::PythStale)
    } else if !confident(feed_confidence(feed), feed_price(feed)) {
        Some(OracleError::PythConfidenceTooWide)
    } else {
        None
    }
}

/// Why no price can be had from these accounts at time `now`, if none can:
/// the first failing check on the pool, then on the reserves, then on the
/// feed, then the rejection of the computation itself.
pub open spec fn price_rejection(
    pool: AccountSnapshot,
    pool_base_token: AccountSnapshot,
    pool_quote_token: AccountSnapshot,
    pyth_price_feed: AccountSnapshot,
    now: int,
    expected_pool: Address,
) -> Option<OracleError> {
    if pool_rejection(pool, pool_base_token, pool_quote_token, expected_pool) is Some {
        pool_rejection(pool, pool_base_token, pool_quote_token, expected_pool)
    } else if reserves_rejection(pool_base_token, pool_quote_token) is Some {
        reserves_rejection(pool_base_token, pool_quote_token)
    } else if feed_rejection(pyth_price_feed, now) is Some {
        feed_rejection(pyth_price_feed, now)
    } else {
        engine_rejection(
            reserve_of(pool_base_token),
            reserve_of(pool_quote_token),
            feed_price(pyth_price_feed),
            feed_exponent(pyth_price_feed),
        )
    }
}

/// The reading that the accounts give where nothing is rejected.
pub open spec fn reading_of(
    pool_base_token: AccountSnapshot,
    pool_quote_token: AccountSnapshot,
    pyth_price_feed: AccountSnapshot,
) -> Reading {
    (
        price_e6(
            reserve_of(pool_base_token),
            reserve_of(pool_quote_token),
            feed_price(pyth_price_feed),
            feed_exponent(pyth_price_feed),
        ) as u64,
        token_per_base_e9(reserve_of(pool_base_token), reserve_of(pool_quote_token)) as u64,
        base_price_e6(feed_price(pyth_price_feed), feed_exponent(pyth_price_feed)) as u64,
        reserve_of(pool_base_token) as u64,
        reserve_of(pool_quote_token) as u64,
    )
}

/// Checks that `pool` is the expected pool and names the two reserve
/// accounts.
pub fn check_pool(
    pool: &AccountSnapshot,
    pool_base_token: &AccountSnapshot,
    pool_quote_token: &AccountSnapshot,
    expected_pool: &Address,
) -> (r: Result<(), OracleError>)
    ensures
        match r {
            Ok(_) => pool_rejection(*pool, *pool_base_token, *pool_quote_token, *expected_pool)
                is None,
            Err(e) => pool_rejection(*pool, *pool_base_token, *pool_quote_token, *expected_pool)
                == Some(e),
        },
{
    if pool.key != *expected_pool {
        return Err(OracleError::PoolMismatch);
    }
    let pool_data: &[u8] = pool.data.as_slice();
    if pool_data.len() < POOL_MIN_LEN {
        return Err(OracleError::AccountDataTooSmall);
    }
    let expected_base: Address = read_pubkey(pool_data, POOL_BASE_TOKEN_OFFSET)?;
    let expected_quote: Address = read_pubkey(pool_data, POOL_QUOTE_TOKEN_OFFSET)?;
    proof {
        Address::lemma_eq_by_bytes(pool_base_token.key, expected_base);
        Address::lemma_eq_by_bytes(pool_quote_token.key, expected_quote);
    }
    if pool_base_token.key != expected_base {
        return Err(OracleError::PoolTokenMismatch);
    }
    if pool_quote_token.key != expected_quote {
        return Err(OracleError::PoolTokenMismatch);
    }
    Ok(())
}

/// Checks the two reserve accounts and reads their balances: the base
/// reserve, then the quote reserve.
pub fn read_reserves(pool_base_token: &AccountSnapshot, pool_quote_token: &AccountSnapshot) -> (r:
    Result<(u64, u64), OracleError>)
    ensures
        match r {
            Ok((base_reserve, quote_reserve)) => {
                &&& reserves_rejection(*pool_base_token, *pool_quote_token) is None
                &&& base_reserve == reserve_of(*pool_base_token)
                &&& quote_reserve == reserve_of(*pool_quote_token)
            },
            Err(e) => reserves_rejection(*pool_base_token, *pool_quote_token) == Some(e),
        },
{
    if !is_token_program(&pool_base_token.owner) {
        return Err(OracleError::InvalidTokenOwner);
    }
    if !is_token_program(&pool_quote_token.owner) {
        return Err(OracleError::InvalidTokenOwner);
    }
    let base_reserve: u64 = read_u64_le(pool_base_token.data.as_slice(), SPL_AMOUNT_OFFSET)?;
    let quote_reserve: u64 = read_u64_le(pool_quote_token.data.as_slice(), SPL_AMOUNT_OFFSET)?;
    if base_reserve == 0 {
        return Err(OracleError::ZeroReserve);
    }
    if quote_reserve == 0 {
        return Err(OracleError::ZeroReserve);
    }
    Ok((base_reserve, quote_reserve))
}

/// Checks the feed account at time `now` and reads its price and its decimal
/// exponent.
pub fn read_feed(pyth_price_feed: &AccountSnapshot, now: i64) -> (r: Result<
    (u64, i32),
    OracleError,
>)
    ensures
        match r {
            Ok((price, exponent)) => {
                &&& feed_rejection(*pyth_price_feed, now as int) is None
                &&& price == feed_price(*pyth_price_feed)
                &&& exponent == feed_exponent(*pyth_price_feed)
            },
            Err(e) => feed_rejection(*pyth_price_feed, now as int) == Some(e),
        },
{
    if !is_publisher_program(&pyth_price_feed.owner) {
        return Err(OracleError::InvalidPythOwner);
    }
    let pyth_data: &[u8] = pyth_price_feed.data.as_slice();
    if pyth_data.len() < PYTH_MIN_LEN {
        return Err(OracleError::AccountDataTooSmall);
    }
    let id: Address = read_pubkey(pyth_data, PYTH_FEED_ID_OFFSET)?;
    proof {
        if id@ == SOL_USD_FEED_ID@ {
            assert(id.bytes =~= SOL_USD_FEED_ID);
        }
    }
    if !id.has_bytes(&SOL_USD_FEED_ID) {
        return Err(OracleError::InvalidPythFeedId);
    }
    let pyth_price_raw: i64 = read_i64_le(pyth_data, PYTH_PRICE_OFFSET)?;
    let pyth_conf: u64 = read_u64_le(pyth_data, PYTH_CONF_OFFSET)?;
    let pyth_expo: i32 = read_i32_le(pyth_data, PYTH_EXPO_OFFSET)?;
    let pyth_publish_time: i64 = read_i64_le(pyth_data, PYTH_PUBLISH_TIME_OFFSET)?;
    if pyth_price_raw <= 0 {
        return Err(OracleError::InvalidPythPrice);
    }
    let age: i128 = (now as i128) - (pyth_publish_time as i128);
    if age < 0 || age > MAX_PYTH_STALENESS as i128 {
        return Err(OracleError::PythStale);
    }
    let pyth_price: u64 = pyth_price_raw as u64;
    if (pyth_conf as u128) * (MAX_CONF_RATIO_X20 as u128) >= pyth_price as u128 {
        return Err(OracleError::PythConfidenceTooWide);
    }
    Ok((pyth_price, pyth_expo))
}

/// Derives the price from the pool's reserves and the feed: runs every check
/// in order, then the computation.
///
/// Returns the reading, or the first rejection. Nothing is read from an
/// account before the checks that come earlier have passed.
pub fn calculate_price(
    pool: &AccountSnapshot,
    pool_base_token: &AccountSnapshot,
    pool_quote_token: &AccountSnapshot,
    pyth_price_feed: &AccountSnapshot,
    clock: &Clock,
    expected_pool: Address,
) -> (r: Result<Reading, OracleError>)
    ensures
        match r {
            Ok(reading) => {
                &&& price_rejection(
                    *pool,
                    *pool_base_token,
                    *pool_quote_token,
                    *pyth_price_feed,
                    clock.unix_timestamp as int,
                    expected_pool,
                ) is None
                &&& reading == reading_of(*pool_base_token, *pool_quote_token, *pyth_price_feed)
                &&& reading.0 > 0
            },
            Err(e) => price_rejection(
                *pool,
                *pool_base_token,
                *pool_quote_token,
                *pyth_price_feed,
                clock.unix_timestamp as int,
                expected_pool,
            ) == Some(e),
        },
{
    check_pool(pool, pool_base_token, pool_quote_token, &expected_pool)?;
    let (base_reserve, quote_reserve) = read_reserves(pool_base_token, pool_quote_token)?;
    let (pyth_price, pyth_expo) = read_feed(pyth_price_feed, clock.unix_timestamp)?;
    let (price, ratio, base_price) = derive_price(
        base_reserve,
        quote_reserve,
        pyth_price,
        pyth_expo,
    )?;
    Ok((price, ratio, base_price, base_reserve, quote_reserve))
}

} // verus!

use oracle_price::account::AccountSnapshot;
use oracle_price::address::Address;
use oracle_price::error::OracleError;
use oracle_price::programs::{
    PYTH_PUSH_ORACLE, PYTH_RECEIVER, SOL_USD_FEED_ID, SPL_TOKEN_2022_PROGRAM, SPL_TOKEN_PROGRAM,
};
use oracle_price::state::Clock;
use oracle_price::validate::{calculate_price, check_pool, read_feed, read_reserves};

const NOW: i64 = 1_700_000_000;

fn key(tag: u8) -> Address {
    Address::new_from_array([tag; 32])
}

fn token_account(tag: u8, owner: [u8; 32], amount: u64) -> AccountSnapshot {
    let mut data = vec![0u8; 165];
    data[64..72].copy_from_slice(&amount.to_le_bytes());
    AccountSnapshot { key: key(tag), owner: Address::new_from_array(owner), data }
}

fn pool_account(tag: u8, base: u8, quote: u8) -> AccountSnapshot {
    let mut data = vec![0x5au8; 211];
    data[139..171].copy_from_slice(&[base; 32]);
    data[171..203].copy_from_slice(&[quote; 32]);
    AccountSnapshot { key: key(tag), owner: key(0xee), data }
}

fn feed_account(price: i64, conf: u64, expo: i32, publish_time: i64) -> AccountSnapshot {
    let mut data = vec![0u8; 134];
    data[41..73].copy_from_slice(&SOL_USD_FEED_ID);
    data[73..81].copy_from_slice(&price.to_le_bytes());
    data[81..89].copy_from_slice(&conf.to_le_bytes());
    data[89..93].copy_from_slice(&expo.to_le_bytes());
    data[93..101].copy_from_slice(&publish_time.to_le_bytes());
    AccountSnapshot { key: key(0xfe), owner: Address::new_from_array(PYTH_RECEIVER), data }
}

struct Accounts {
    pool: AccountSnapshot,
    base: AccountSnapshot,
    quote: AccountSnapshot,
    feed: AccountSnapshot,
}

fn good_accounts() -> Accounts {
    Accounts {
        pool: pool_account(1, 2, 3),
        base: token_account(2, SPL_TOKEN_PROGRAM, 1_000_000_000_000),
        quote: token_account(3, SPL_TOKEN_PROGRAM, 50_000_000_000),
        feed: feed_account(150_00000000, 10_000_000, -8, NOW - 5),
    }
}

fn price_at(a: &Accounts, now: i64) -> Result<(u64, u64, u64, u64, u64), OracleError> {
    let clock = Clock { slot: 1, unix_timestamp: now };
    calculate_price(&a.pool, &a.base, &a.quote, &a.feed, &clock, key(1))
}

fn price(a: &Accounts) -> Result<(u64, u64, u64, u64, u64), OracleError> {
    price_at(a, NOW)
}

#[test]
fn valid_accounts_give_the_reference_reading() {
    let a = good_accounts();
    assert_eq!(price(&a), Ok((7_500, 50_000_000, 150_000_000, 1_000_000_000_000, 50_000_000_000)));
}

#[test]
fn another_pool_than_the_bound_one_is_rejected() {
    let a = good_accounts();
    let clock = Clock { slot: 1, unix_timestamp: NOW };
    let r = calculate_price(&a.pool, &a.base, &a.quote, &a.feed, &clock, key(9));
    assert_eq!(r, Err(OracleError::PoolMismatch));
    assert_eq!(check_pool(&a.pool, &a.base, &a.quote, &key(9)), Err(OracleError::PoolMismatch));
    assert_eq!(check_pool(&a.pool, &a.base, &a.quote, &key(1)), Ok(()));
}

#[test]
fn pool_mismatch_comes_before_every_other_rejection() {
    let mut a = good_accounts();
    a.pool.data.truncate(10);
    a.base.owner = key(0x77);
    a.feed.owner = key(0x77);
    let clock = Clock { slot: 1, unix_timestamp: NOW };
    let r = calculate_price(&a.pool, &a.base, &a.quote, &a.feed, &clock, key(9));
    assert_eq!(r, Err(OracleError::PoolMismatch));
}

#[test]
fn pool_data_shorter_than_its_layout_is_rejected() {
    let mut a = good_accounts();
    a.pool.data.truncate(202);
    assert_eq!(price(&a), Err(OracleError::AccountDataTooSmall));
    let mut b = good_accounts();
    b.pool.data.truncate(203);
    assert_eq!(price(&b).map(|r| r.0), Ok(7_500));
}

#[test]
fn base_reserve_account_that_the_pool_does_not_name_is_rejected() {
    let mut a = good_accounts();
    a.base.key = key(4);
    assert_eq!(price(&a), Err(OracleError::PoolTokenMismatch));
    let mut b = good_accounts();
    b.pool.data[139] ^= 1;
    assert_eq!(price(&b), Err(OracleError::PoolTokenMismatch));
    let mut c = good_accounts();
    c.pool.data[170] ^= 0x80;
    assert_eq!(price(&c), Err(OracleError::PoolTokenMismatch));
}

#[test]
fn quote_reserve_account_that_the_pool_does_not_name_is_rejected() {
    let mut a = good_accounts();
    a.quote.key = key(4);
    assert_eq!(price(&a), Err(OracleError::PoolTokenMismatch));
    let mut b = good_accounts();
    b.pool.data[202] ^= 1;
    assert_eq!(price(&b), Err(OracleError::PoolTokenMismatch));
}

#[test]
fn swapped_reserve_accounts_are_rejected() {
    let a = good_accounts();
    let clock = Clock { slot: 1, unix_timestamp: NOW };
    let r = calculate_price(&a.pool, &a.quote, &a.base, &a.feed, &clock, key(1));
    assert_eq!(r, Err(OracleError::PoolTokenMismatch));
}

#[test]
fn reserve_account_of_another_owner_is_rejected() {
    let mut a = good_accounts();
    a.base.owner = key(0x77);
    assert_eq!(price(&a), Err(OracleError::InvalidTokenOwner));
    let mut b = good_accounts();
    b.quote.owner = Address::new_from_array(PYTH_RECEIVER);
    assert_eq!(price(&b), Err(OracleError::InvalidTokenOwner));
    assert_eq!(read_reserves(&b.base, &b.quote), Err(OracleError::InvalidTokenOwner));
}

#[test]
fn both_token_ledgers_are_accepted() {
    let mut a = good_accounts();
    a.base.owner = Address::new_from_array(SPL_TOKEN_2022_PROGRAM);
    assert_eq!(price(&a).map(|r| r.0), Ok(7_500));
    a.quote.owner = Address::new_from_array(SPL_TOKEN_2022_PROGRAM);
    assert_eq!(price(&a).map(|r| r.0), Ok(7_500));
    assert_eq!(read_reserves(&a.base, &a.quote), Ok((1_000_000_000_000, 50_000_000_000)));
}

#[test]
fn owner_check_comes_before_the_balance_is_read() {
    let mut a = good_accounts();
    a.base.data.truncate(0);
    a.quote.owner = key(0x77);
    assert_eq!(price(&a), Err(OracleError::InvalidTokenOwner));
}

#[test]
fn reserve_account_without_a_balance_is_rejected() {
    let mut a = good_accounts();
    a.base.data.truncate(71);
    assert_eq!(price(&a), Err(OracleError::AccountDataTooSmall));
    let mut b = good_accounts();
    b.quote.data.truncate(71);
    assert_eq!(price(&b), Err(OracleError::AccountDataTooSmall));
    let mut c = good_accounts();
    c.base.data.truncate(72);
    c.quote.data.truncate(72);
    assert_eq!(price(&c).map(|r| r.0), Ok(7_500));
}

#[test]
fn zero_reserve_is_rejected() {
    let mut a = good_accounts();
    a.base = token_account(2, SPL_TOKEN_PROGRAM, 0);
    assert_eq!(price(&a), Err(OracleError::ZeroReserve));
    let mut b = good_accounts();
    b.quote = token_account(3, SPL_TOKEN_PROGRAM, 0);
    assert_eq!(price(&b), Err(OracleError::ZeroReserve));
}

#[test]
fn short_balance_comes_before_a_zero_reserve() {
    let mut a = good_accounts();
    a.base = token_account(2, SPL_TOKEN_PROGRAM, 0);
    a.quote.data.truncate(71);
    assert_eq!(price(&a), Err(OracleError::AccountDataTooSmall));
}

#[test]
fn feed_of_another_owner_is_rejected() {
    let mut a = good_accounts();
    a.feed.owner = Address::new_from_array(SPL_TOKEN_PROGRAM);
    assert_eq!(price(&a), Err(OracleError::InvalidPythOwner));
    assert_eq!(read_feed(&a.feed, NOW), Err(OracleError::InvalidPythOwner));
}

#[test]
fn both_publishers_are_accepted() {
    let mut a = good_accounts();
    a.feed.owner = Address::new_from_array(PYTH_PUSH_ORACLE);
    assert_eq!(price(&a).map(|r| r.0), Ok(7_500));
    assert_eq!(read_feed(&a.feed, NOW), Ok((150_00000000, -8)));
}

#[test]
fn reserves_are_checked_before_the_feed() {
    let mut a = good_accounts();
    a.feed.owner = key(0x77);
    a.quote = token_account(3, SPL_TOKEN_PROGRAM, 0);
    assert_eq!(price(&a), Err(OracleError::ZeroReserve));
}

#[test]
fn feed_data_shorter_than_its_layout_is_rejected() {
    let mut a = good_accounts();
    a.feed.data.truncate(101);
    assert_eq!(price(&a), Err(OracleError::AccountDataTooSmall));
    let mut b = good_accounts();
    b.feed.data.truncate(102);
    assert_eq!(price(&b).map(|r| r.0), Ok(7_500));
}

#[test]
fn another_feed_identifier_is_rejected() {
    let mut a = good_accounts();
    a.feed.data[41] ^= 1;
    assert_eq!(price(&a), Err(OracleError::InvalidPythFeedId));
    let mut b = good_accounts();
    b.feed.data[72] ^= 1;
    assert_eq!(price(&b), Err(OracleError::InvalidPythFeedId));
    let mut c = good_accounts();
    c.feed.data[40] ^= 1;
    assert_eq!(price(&c).map(|r| r.0), Ok(7_500));
}

#[test]
fn feed_price_that_is_not_positive_is_rejected() {
    let mut a = good_accounts();
    a.feed = feed_account(0, 0, -8, NOW);
    assert_eq!(price(&a), Err(OracleError::InvalidPythPrice));
    a.feed = feed_account(-150_00000000, 0, -8, NOW);
    assert_eq!(price(&a), Err(OracleError::InvalidPythPrice));
    a.feed = feed_account(i64::MIN, 0, -8, NOW);
    assert_eq!(price(&a), Err(OracleError::InvalidPythPrice));
    a.feed = feed_account(1, 0, -8, NOW);
    assert_eq!(read_feed(&a.feed, NOW), Ok((1, -8)));
}

#[test]
fn price_check_comes_before_freshness() {
    let mut a = good_accounts();
    a.feed = feed_account(0, u64::MAX, -8, NOW - 1_000);
    assert_eq!(price(&a), Err(OracleError::InvalidPythPrice));
}

#[test]
fn feed_aged_sixty_seconds_is_fresh() {
    let mut a = good_accounts();
    a.feed = feed_account(150_00000000, 0, -8, NOW - 60);
    assert_eq!(price(&a).map(|r| r.0), Ok(7_500));
    a.feed = feed_account(150_00000000, 0, -8, NOW);
    assert_eq!(price(&a).map(|r| r.0), Ok(7_500));
}

#[test]
fn feed_aged_sixty_one_seconds_is_stale() {
    let mut a = good_accounts();
    a.feed = feed_account(150_00000000, 0, -8, NOW - 61);
    assert_eq!(price(&a), Err(OracleError::PythStale));
}

#[test]
fn feed_from_the_future_is_stale() {
    let mut a = good_accounts();
    a.feed = feed_account(150_00000000, 0, -8, NOW + 1);
    assert_eq!(price(&a), Err(OracleError::PythStale));
}

#[test]
fn ages_beyond_sixty_four_bits_are_stale() {
    let mut a = good_accounts();
    a.feed = feed_account(150_00000000, 0, -8, i64::MIN);
    assert_eq!(price_at(&a, i64::MAX), Err(OracleError::PythStale));
    a.feed = feed_account(150_00000000, 0, -8, i64::MAX);
    assert_eq!(price_at(&a, i64::MIN), Err(OracleError::PythStale));
    a.feed = feed_account(150_00000000, 0, -8, -30);
    assert_eq!(price_at(&a, 30).map(|r| r.0), Ok(7_500));
    a.feed = feed_account(150_00000000, 0, -8, i64::MIN);
    assert_eq!(price_at(&a, i64::MIN + 60).map(|r| r.0), Ok(7_500));
}

#[test]
fn confidence_of_exactly_a_twentieth_is_too_wide() {
    let mut a = good_accounts();
    a.feed = feed_account(150_00000000, 7_50000000, -8, NOW);
    assert_eq!(price(&a), Err(OracleError::PythConfidenceTooWide));
    a.feed = feed_account(20, 1, -8, NOW);
    assert_eq!(read_feed(&a.feed, NOW), Err(OracleError::PythConfidenceTooWide));
}

#[test]
fn confidence_just_below_a_twentieth_passes() {
    let mut a = good_accounts();
    // confidence * 20 == price - 1
    a.feed = feed_account(150_00000001, 7_50000000, -8, NOW);
    assert_eq!(read_feed(&a.feed, NOW), Ok((150_00000001, -8)));
    a.feed = feed_account(21, 1, -8, NOW);
    assert_eq!(read_feed(&a.feed, NOW), Ok((21, -8)));
}

#[test]
fn confidence_whose_multiple_overflows_is_too_wide() {
    let mut a = good_accounts();
    a.feed = feed_account(i64::MAX, u64::MAX, -8, NOW);
    assert_eq!(price(&a), Err(OracleError::PythConfidenceTooWide));
    a.feed = feed_account(i64::MAX, u64::MAX / 20 + 1, -8, NOW);
    assert_eq!(price(&a), Err(OracleError::PythConfidenceTooWide));
}

#[test]
fn freshness_comes_before_confidence() {
    let mut a = good_accounts();
    a.feed = feed_account(150_00000000, u64::MAX, -8, NOW - 61);
    assert_eq!(price(&a), Err(OracleError::PythStale));
}

#[test]
fn price_that_truncates_to_zero_is_rejected_after_validation() {
    let mut a = good_accounts();
    a.quote = token_account(3, SPL_TOKEN_PROGRAM, 1);
    a.feed = feed_account(1, 0, -8, NOW);
    assert_eq!(price(&a), Err(OracleError::ZeroPrice));
}

#[test]
fn value_beyond_sixty_four_bits_is_rejected_after_validation() {
    let mut a = good_accounts();
    a.base = token_account(2, SPL_TOKEN_PROGRAM, 1);
    a.quote = token_account(3, SPL_TOKEN_PROGRAM, u64::MAX);
    a.feed = feed_account(i64::MAX, 0, 0, NOW);
    assert_eq!(price(&a), Err(OracleError::PriceOverflow));
}

#[test]
fn reading_carries_the_reserves_as_read() {
    let mut a = good_accounts();
    a.base = token_account(2, SPL_TOKEN_2022_PROGRAM, 987_654_321);
    a.quote = token_account(3, SPL_TOKEN_PROGRAM, 123_456_789);
    a.feed = feed_account(2_000_000, 99_999, -4, NOW - 60);
    // spot: 123_456_789 * 2_000_000 / (987_654_321 * 10) = 24_999.99..
    // ratio: 123_456_789 * 10^9 / 987_654_321 = 124_999_998.86..
    // base price: 2_000_000 * 10^2
    assert_eq!(price(&a), Ok((24_999, 124_999_998, 200_000_000, 987_654_321, 123_456_789)));
}

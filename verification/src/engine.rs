//! The price computation: fixed-point arithmetic that turns two pool reserves
//! and an exponent-scaled feed price into a price with six decimals.
//!
//! The feed price stands for `feed_price * 10^feed_exponent`. Every result is
//! a truncating quotient of exact integers; nothing is rounded to nearest and
//! nothing wraps. A result that does not fit in 64 bits is rejected.

use vstd::prelude::*;
use vstd::arithmetic::div_mod::{
    lemma_basic_div, lemma_div_is_ordered, lemma_div_multiples_vanish, lemma_fundamental_div_mod,
    lemma_mod_bound,
};
use vstd::arithmetic::power::{lemma_pow0, lemma_pow_increases, lemma_pow_positive, pow};
use crate::error::OracleError;

verus! {

/// `quote_reserve * 10^9 / base_reserve`, truncated: the ratio of the two
/// reserves with nine decimals.
pub open spec fn token_per_base_e9(base_reserve: int, quote_reserve: int) -> int {
    (quote_reserve * 1_000_000_000) / base_reserve
}

/// The feed price with six decimals: `feed_price * 10^(6 + feed_exponent)`,
/// truncated where the power is negative.
pub open spec fn base_price_e6(feed_price: int, feed_exponent: int) -> int {
    let shift = 6 + feed_exponent;
    if shift >= 0 {
        feed_price * pow(10, shift as nat)
    } else {
        feed_price / pow(10, (-shift) as nat)
    }
}

/// The dividend of the spot price.
pub open spec fn price_numerator(quote_reserve: int, feed_price: int, feed_exponent: int) -> int {
    let shift = 3 + feed_exponent;
    if shift >= 0 {
        quote_reserve * feed_price * pow(10, shift as nat)
    } else {
        quote_reserve * feed_price
    }
}

/// The divisor of the spot price.
pub open spec fn price_divisor(base_reserve: int, feed_exponent: int) -> int {
    let shift = 3 + feed_exponent;
    if shift >= 0 {
        base_reserve
    } else {
        base_reserve * pow(10, (-shift) as nat)
    }
}

/// The spot price with six decimals:
/// `quote_reserve * feed_price * 10^(3 + feed_exponent) / base_reserve`,
/// truncated. A negative power of ten moves to the divisor.
pub open spec fn price_e6(
    base_reserve: int,
    quote_reserve: int,
    feed_price: int,
    feed_exponent: int,
) -> int {
    price_numerator(quote_reserve, feed_price, feed_exponent) / price_divisor(
        base_reserve,
        feed_exponent,
    )
}

/// Why the computation is rejected on these inputs, if it is: the divisor is
/// zero, the spot price truncates to zero, or a result does not fit in 64
/// bits, in this order.
pub open spec fn engine_rejection(
    base_reserve: int,
    quote_reserve: int,
    feed_price: int,
    feed_exponent: int,
) -> Option<OracleError> {
    if price_divisor(base_reserve, feed_exponent) == 0 {
        Some(OracleError::ZeroDivisor)
    } else if price_e6(base_reserve, quote_reserve, feed_price, feed_exponent) == 0 {
        Some(OracleError::ZeroPrice)
    } else if price_e6(base_reserve, quote_reserve, feed_price, feed_exponent) > u64::MAX
        || token_per_base_e9(base_reserve, quote_reserve) > u64::MAX || base_price_e6(
        feed_price,
        feed_exponent,
    ) > u64::MAX {
        Some(OracleError::PriceOverflow)
    } else {
        None
    }
}

/// The product of two 64-bit numbers fits in 128 bits.
proof fn lemma_product_fits(a: u64, b: u64)
    ensures
        0 <= a * b <= u128::MAX,
{
    assert(0 <= a * b <= 0xffff_ffff_ffff_ffff * 0xffff_ffff_ffff_ffff) by (nonlinear_arith)
        requires
            0 <= a <= 0xffff_ffff_ffff_ffff,
            0 <= b <= 0xffff_ffff_ffff_ffff,
    ;
}

/// A dividend of at least `m` times the divisor gives a quotient of at
/// least `m`.
proof fn lemma_quotient_at_least(n: int, d: int, m: int)
    requires
        d > 0,
        n >= m * d,
    ensures
        n / d >= m,
{
    lemma_div_multiples_vanish(m, d);
    lemma_div_is_ordered(m * d, n, d);
    assert(m * d == d * m) by (nonlinear_arith);
}

/// A dividend below the divisor gives the quotient zero.
proof fn lemma_quotient_zero(n: int, d: int)
    requires
        0 <= n < d,
    ensures
        n / d == 0,
{
    lemma_basic_div(n, d);
}

/// A positive multiple of a number is at least the number.
proof fn lemma_scaled_at_least(a: int, s: int)
    requires
        a >= 1,
        s >= 0,
    ensures
        a * s >= s,
{
    assert(a * s >= s) by (nonlinear_arith)
        requires
            a >= 1,
            s >= 0,
    ;
}

/// The divisor vanishes exactly when the base reserve does.
pub proof fn lemma_divisor_zero(base_reserve: int, feed_exponent: int)
    requires
        base_reserve >= 0,
    ensures
        price_divisor(base_reserve, feed_exponent) >= 0,
        price_divisor(base_reserve, feed_exponent) == 0 <==> base_reserve == 0,
{
    let shift = 3 + feed_exponent;
    if shift < 0 {
        let scale = pow(10, (-shift) as nat);
        lemma_pow_positive(10, (-shift) as nat);
        assert(base_reserve * scale >= 0 && (base_reserve * scale == 0 <==> base_reserve == 0))
            by (nonlinear_arith)
            requires
                scale > 0,
                base_reserve >= 0,
        ;
    }
}

/// `10^k`, where that fits in 128 bits.
fn pow10(k: u64) -> (r: Option<u128>)
    ensures
        match r {
            Some(v) => v == pow(10, k as nat),
            None => pow(10, k as nat) > u128::MAX,
        },
{
    let mut acc: u128 = 1;
    let mut i: u64 = 0;
    proof {
        lemma_pow0(10);
    }
    while i < k
        invariant
            i <= k,
            acc == pow(10, i as nat),
        decreases k - i,
    {
        assert(pow(10, (i + 1) as nat) == 10 * pow(10, i as nat)) by {
            reveal(pow);
        }
        match acc.checked_mul(10) {
            Some(next) => {
                acc = next;
            },
            None => {
                proof {
                    lemma_pow_increases(10, (i + 1) as nat, k as nat);
                }
                return None;
            },
        }
        i = i + 1;
    }
    Some(acc)
}

/// `v` as a 64-bit number, where it fits.
fn narrow(v: u128) -> (r: Option<u64>)
    ensures
        match r {
            Some(w) => w == v,
            None => v > u64::MAX,
        },
{
    if v <= 0xffff_ffff_ffff_ffff {
        Some(v as u64)
    } else {
        None
    }
}

/// The reserve ratio with nine decimals, where it fits in 64 bits.
fn reserve_ratio(base_reserve: u64, quote_reserve: u64) -> (r: Option<u64>)
    requires
        base_reserve > 0,
    ensures
        match r {
            Some(v) => v == token_per_base_e9(base_reserve as int, quote_reserve as int),
            None => token_per_base_e9(base_reserve as int, quote_reserve as int) > u64::MAX,
        },
{
    let scaled: u128 = (quote_reserve as u128) * 1_000_000_000u128;
    narrow(scaled / (base_reserve as u128))
}

/// The feed price with six decimals, where it fits in 64 bits.
fn scaled_feed_price(feed_price: u64, feed_exponent: i32) -> (r: Option<u64>)
    ensures
        match r {
            Some(v) => v == base_price_e6(feed_price as int, feed_exponent as int),
            None => base_price_e6(feed_price as int, feed_exponent as int) > u64::MAX,
        },
{
    let shift: i64 = 6 + (feed_exponent as i64);
    if shift >= 0 {
        if feed_price == 0 {
            assert(0 * pow(10, shift as nat) == 0);
            return Some(0);
        }
        proof {
            lemma_pow_positive(10, shift as nat);
            lemma_scaled_at_least(feed_price as int, pow(10, shift as nat));
        }
        match pow10(shift as u64) {
            None => None,
            Some(scale) => match (feed_price as u128).checked_mul(scale) {
                None => None,
                Some(v) => narrow(v),
            },
        }
    } else {
        proof {
            lemma_pow_positive(10, (-shift) as nat);
        }
        match pow10((-shift) as u64) {
            None => {
                proof {
                    lemma_quotient_zero(feed_price as int, pow(10, (-shift) as nat));
                }
                Some(0)
            },
            Some(scale) => narrow((feed_price as u128) / scale),
        }
    }
}

/// The spot price with six decimals, where it fits in 64 bits.
fn spot_price(base_reserve: u64, quote_reserve: u64, feed_price: u64, feed_exponent: i32) -> (r:
    Option<u64>)
    requires
        base_reserve > 0,
    ensures
        match r {
            Some(v) => v == price_e6(
                base_reserve as int,
                quote_reserve as int,
                feed_price as int,
                feed_exponent as int,
            ),
            None => price_e6(
                base_reserve as int,
                quote_reserve as int,
                feed_price as int,
                feed_exponent as int,
            ) > u64::MAX,
        },
{
    proof {
        lemma_product_fits(quote_reserve, feed_price);
    }
    let product: u128 = (quote_reserve as u128) * (feed_price as u128);
    let shift: i64 = 3 + (feed_exponent as i64);
    if shift >= 0 {
        let ghost scale = pow(10, shift as nat);
        if product == 0 {
            proof {
                assert(quote_reserve * feed_price * scale == 0) by (nonlinear_arith)
                    requires
                        quote_reserve * feed_price == 0,
                ;
                lemma_quotient_zero(0, base_reserve as int);
            }
            return Some(0);
        }
        proof {
            lemma_pow_positive(10, shift as nat);
            lemma_scaled_at_least(product as int, scale);
            if product * scale > u128::MAX {
                assert(0x1_0000_0000_0000_0000 * (base_reserve as int) <= product * scale);
                lemma_quotient_at_least(
                    product * scale,
                    base_reserve as int,
                    0x1_0000_0000_0000_0000,
                );
            }
        }
        match pow10(shift as u64) {
            None => None,
            Some(scale) => match product.checked_mul(scale) {
                None => None,
                Some(numerator) => narrow(numerator / (base_reserve as u128)),
            },
        }
    } else {
        let ghost scale = pow(10, (-shift) as nat);
        proof {
            lemma_pow_positive(10, (-shift) as nat);
            lemma_scaled_at_least(base_reserve as int, scale);
            assert(base_reserve * scale == scale * base_reserve) by (nonlinear_arith);
            if base_reserve * scale > u128::MAX {
                lemma_quotient_zero(product as int, base_reserve * scale);
            }
        }
        match pow10((-shift) as u64) {
            None => Some(0),
            Some(scale) => match (base_reserve as u128).checked_mul(scale) {
                None => Some(0),
                Some(divisor) => narrow(product / divisor),
            },
        }
    }
}

/// Computes `(price_e6, token_per_base_e9, base_price_e6)` from the two
/// reserves and the feed price `feed_price * 10^feed_exponent`.
///
/// The computation is rejected with `ZeroDivisor` where the divisor of the
/// spot price is zero, with `ZeroPrice` where the spot price truncates to
/// zero, and with `PriceOverflow` where one of the three results does not fit
/// in 64 bits. Otherwise the three results are the exact truncated quotients.
pub fn derive_price(
    base_reserve: u64,
    quote_reserve: u64,
    feed_price: u64,
    feed_exponent: i32,
) -> (r: Result<(u64, u64, u64), OracleError>)
    ensures
        match r {
            Ok((price, ratio, base_price)) => {
                &&& engine_rejection(
                    base_reserve as int,
                    quote_reserve as int,
                    feed_price as int,
                    feed_exponent as int,
                ) is None
                &&& price == price_e6(
                    base_reserve as int,
                    quote_reserve as int,
                    feed_price as int,
                    feed_exponent as int,
                )
                &&& ratio == token_per_base_e9(base_reserve as int, quote_reserve as int)
                &&& base_price == base_price_e6(feed_price as int, feed_exponent as int)
            },
            Err(e) => engine_rejection(
                base_reserve as int,
                quote_reserve as int,
                feed_price as int,
                feed_exponent as int,
            ) == Some(e),
        },
{
    proof {
        lemma_divisor_zero(base_reserve as int, feed_exponent as int);
    }
    if base_reserve == 0 {
        return Err(OracleError::ZeroDivisor);
    }
    let price: Option<u64> = spot_price(base_reserve, quote_reserve, feed_price, feed_exponent);
    let ratio: Option<u64> = reserve_ratio(base_reserve, quote_reserve);
    let base_price: Option<u64> = scaled_feed_price(feed_price, feed_exponent);
    match (price, ratio, base_price) {
        (Some(0), _, _) => Err(OracleError::ZeroPrice),
        (Some(p), Some(t), Some(b)) => Ok((p, t, b)),
        _ => Err(OracleError::PriceOverflow),
    }
}

/// The spot price is the floor of the exact quotient: it is the one integer
/// `p` with `p * divisor <= numerator < (p + 1) * divisor`.
pub proof fn lemma_price_is_floor(
    base_reserve: int,
    quote_reserve: int,
    feed_price: int,
    feed_exponent: int,
)
    requires
        base_reserve > 0,
    ensures
        ({
            let p = price_e6(base_reserve, quote_reserve, feed_price, feed_exponent);
            let n = price_numerator(quote_reserve, feed_price, feed_exponent);
            let d = price_divisor(base_reserve, feed_exponent);
            p * d <= n < (p + 1) * d
        }),
{
    let n = price_numerator(quote_reserve, feed_price, feed_exponent);
    let d = price_divisor(base_reserve, feed_exponent);
    lemma_divisor_zero(base_reserve, feed_exponent);
    lemma_fundamental_div_mod(n, d);
    lemma_mod_bound(n, d);
    assert((n / d + 1) * d == d * (n / d) + d) by (nonlinear_arith);
    assert((n / d) * d == d * (n / d)) by (nonlinear_arith);
}

} // verus!

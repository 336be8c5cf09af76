//! Typed reads from raw account data at fixed offsets.
//!
//! Account data is an external byte layout: the offsets below are part of the
//! interface with the programs that write those accounts. This module is the
//! only place where raw bytes are interpreted.

use vstd::prelude::*;
use crate::address::Address;
use crate::error::OracleError;

verus! {

/// Offset of the 64-bit balance in a token account.
pub const SPL_AMOUNT_OFFSET: usize = 64;

/// Offset of the base reserve account's address in a pool account.
pub const POOL_BASE_TOKEN_OFFSET: usize = 139;

/// Offset of the quote reserve account's address in a pool account.
pub const POOL_QUOTE_TOKEN_OFFSET: usize = 171;

/// Least length of a pool account's data.
pub const POOL_MIN_LEN: usize = 203;

/// Offset of the 32-byte feed identifier in a feed account.
pub const PYTH_FEED_ID_OFFSET: usize = 41;

/// Offset of the signed 64-bit price in a feed account.
pub const PYTH_PRICE_OFFSET: usize = 73;

/// Offset of the unsigned 64-bit confidence in a feed account.
pub const PYTH_CONF_OFFSET: usize = 81;

/// Offset of the signed 32-bit decimal exponent in a feed account.
pub const PYTH_EXPO_OFFSET: usize = 89;

/// Offset of the signed 64-bit publish time in a feed account.
pub const PYTH_PUBLISH_TIME_OFFSET: usize = 93;

/// Least length of a feed account's data.
pub const PYTH_MIN_LEN: usize = 102;

/// `256^n`: the number of values that `n` bytes can hold.
pub open spec fn radix(n: nat) -> nat
    decreases n,
{
    if n == 0 {
        1
    } else {
        256 * radix((n - 1) as nat)
    }
}

/// The number that `bytes` spell in little-endian order: the first byte is
/// the least significant.
pub open spec fn le_value(bytes: Seq<u8>) -> nat
    decreases bytes.len(),
{
    if bytes.len() == 0 {
        0
    } else {
        bytes[0] as nat + 256 * le_value(bytes.drop_first())
    }
}

/// The two's complement reading of `v` as a signed number of `width` bytes.
pub open spec fn signed_value(v: nat, width: nat) -> int {
    if 2 * v < radix(width) {
        v as int
    } else {
        v - radix(width)
    }
}

/// The `width` bytes of `data` that start at `offset`.
pub open spec fn field(data: Seq<u8>, offset: int, width: int) -> Seq<u8> {
    data.subrange(offset, offset + width)
}

/// `data` is long enough for a read of `width` bytes at `offset`.
pub open spec fn holds_field(data: Seq<u8>, offset: int, width: int) -> bool {
    offset + width <= data.len()
}

/// The numbers of values that four, seven and eight bytes can hold.
pub proof fn lemma_radix_values()
    ensures
        radix(0) == 1,
        radix(4) == 0x1_0000_0000,
        radix(7) == 0x100_0000_0000_0000,
        radix(8) == 0x1_0000_0000_0000_0000,
{
    reveal_with_fuel(radix, 9);
}

/// More bytes hold at least as many values.
pub proof fn lemma_radix_monotonic(a: nat, b: nat)
    requires
        a <= b,
    ensures
        0 < radix(a) <= radix(b),
    decreases b,
{
    if a < b {
        lemma_radix_monotonic(a, (b - 1) as nat);
    } else if a > 0 {
        lemma_radix_monotonic((a - 1) as nat, (a - 1) as nat);
    }
}

/// A little-endian value of `n` bytes lies below `256^n`.
pub proof fn lemma_le_value_bound(bytes: Seq<u8>)
    ensures
        le_value(bytes) < radix(bytes.len()),
    decreases bytes.len(),
{
    if bytes.len() > 0 {
        lemma_le_value_bound(bytes.drop_first());
    }
}

/// Decodes `width` bytes at `offset` as a little-endian unsigned number.
fn read_le(data: &[u8], offset: usize, width: usize) -> (v: u64)
    requires
        1 <= width <= 8,
        holds_field(data@, offset as int, width as int),
    ensures
        v == le_value(field(data@, offset as int, width as int)),
{
    let len: usize = data.len();
    let mut acc: u64 = 0;
    let mut i: usize = width;
    while i > 0
        invariant
            i <= width <= 8,
            offset + width <= data@.len() == len,
            acc == le_value(data@.subrange(offset + i, offset + width)),
            acc < radix((width - i) as nat),
        decreases i,
    {
        i = i - 1;
        let b: u8 = data[offset + i];
        proof {
            let rest = data@.subrange(offset + i, offset + width);
            assert(rest.drop_first() =~= data@.subrange(offset + i + 1, offset + width));
            assert(rest[0] == b);
            lemma_radix_monotonic((width - i - 1) as nat, 7);
            lemma_radix_values();
        }
        acc = acc * 256 + (b as u64);
    }
    acc
}

/// Reads an unsigned 64-bit little-endian number at `offset`.
pub fn read_u64_le(data: &[u8], offset: usize) -> (r: Result<u64, OracleError>)
    ensures
        match r {
            Ok(v) => holds_field(data@, offset as int, 8) && v == le_value(
                field(data@, offset as int, 8),
            ),
            Err(e) => e == OracleError::AccountDataTooSmall && !holds_field(
                data@,
                offset as int,
                8,
            ),
        },
{
    if data.len() < 8 || data.len() - 8 < offset {
        return Err(OracleError::AccountDataTooSmall);
    }
    Ok(read_le(data, offset, 8))
}

/// Reads a signed 64-bit little-endian number (two's complement) at `offset`.
pub fn read_i64_le(data: &[u8], offset: usize) -> (r: Result<i64, OracleError>)
    ensures
        match r {
            Ok(v) => holds_field(data@, offset as int, 8) && v == signed_value(
                le_value(field(data@, offset as int, 8)),
                8,
            ),
            Err(e) => e == OracleError::AccountDataTooSmall && !holds_field(
                data@,
                offset as int,
                8,
            ),
        },
{
    if data.len() < 8 || data.len() - 8 < offset {
        return Err(OracleError::AccountDataTooSmall);
    }
    let raw: u64 = read_le(data, offset, 8);
    proof {
        lemma_radix_values();
    }
    if raw < 0x8000_0000_0000_0000 {
        Ok(raw as i64)
    } else {
        Ok(((raw - 0x8000_0000_0000_0000) as i64) + i64::MIN)
    }
}

/// Reads a signed 32-bit little-endian number (two's complement) at `offset`.
pub fn read_i32_le(data: &[u8], offset: usize) -> (r: Result<i32, OracleError>)
    ensures
        match r {
            Ok(v) => holds_field(data@, offset as int, 4) && v == signed_value(
                le_value(field(data@, offset as int, 4)),
                4,
            ),
            Err(e) => e == OracleError::AccountDataTooSmall && !holds_field(
                data@,
                offset as int,
                4,
            ),
        },
{
    if data.len() < 4 || data.len() - 4 < offset {
        return Err(OracleError::AccountDataTooSmall);
    }
    let raw: u64 = read_le(data, offset, 4);
    proof {
        lemma_radix_values();
        lemma_le_value_bound(field(data@, offset as int, 4));
    }
    if raw < 0x8000_0000 {
        Ok(raw as i32)
    } else {
        Ok(((raw - 0x8000_0000) as i32) + i32::MIN)
    }
}

/// Reads a 32-byte address at `offset`.
pub fn read_pubkey(data: &[u8], offset: usize) -> (r: Result<Address, OracleError>)
    ensures
        match r {
            Ok(a) => holds_field(data@, offset as int, 32) && a@ == field(
                data@,
                offset as int,
                32,
            ),
            Err(e) => e == OracleError::AccountDataTooSmall && !holds_field(
                data@,
                offset as int,
                32,
            ),
        },
{
    if data.len() < 32 || data.len() - 32 < offset {
        return Err(OracleError::AccountDataTooSmall);
    }
    let len: usize = data.len();
    let mut bytes: [u8; 32] = [0u8; 32];
    let mut i: usize = 0;
    while i < 32
        invariant
            i <= 32,
            offset + 32 <= data@.len() == len,
            forall|j: int| 0 <= j < i ==> bytes@[j] == data@[offset + j],
        decreases 32 - i,
    {
        bytes[i] = data[offset + i];
        i = i + 1;
    }
    assert(bytes@ =~= field(data@, offset as int, 32));
    Ok(Address::new_from_array(bytes))
}

} // verus!

//! The message that carries the smoothed price to the consumer.
//!
//! The message has a fixed format of 17 bytes: one byte that names the
//! operation, the price as an unsigned 64-bit number, and the time as a signed
//! 64-bit number, both little-endian.

use vstd::prelude::*;
use crate::layout::{field, le_value, lemma_radix_values, radix, signed_value};

verus! {

/// The byte that names the operation "push an oracle price".
pub const PUSH_ORACLE_PRICE_TAG: u8 = 17;

/// Length of the message.
pub const PUSH_PAYLOAD_LEN: usize = 17;

/// The `n` little-endian bytes of `v`: the least significant byte comes
/// first.
pub open spec fn le_bytes(v: nat, n: nat) -> Seq<u8>
    decreases n,
{
    if n == 0 {
        Seq::empty()
    } else {
        seq![(v % 256) as u8] + le_bytes(v / 256, (n - 1) as nat)
    }
}

/// The unsigned 64-bit number with the bits of the signed number `t` (two's
/// complement).
pub open spec fn unsigned_value(t: int) -> nat {
    if t >= 0 {
        t as nat
    } else {
        (t + radix(8)) as nat
    }
}

/// The message for the smoothed price `price_e6` at time `timestamp`.
pub open spec fn push_payload(price_e6: u64, timestamp: i64) -> Seq<u8> {
    seq![PUSH_ORACLE_PRICE_TAG] + le_bytes(price_e6 as nat, 8) + le_bytes(
        unsigned_value(timestamp as int),
        8,
    )
}

/// The `n` little-endian bytes of a number are `n` bytes.
pub proof fn lemma_le_bytes_len(v: nat, n: nat)
    ensures
        le_bytes(v, n).len() == n,
    decreases n,
{
    if n > 0 {
        lemma_le_bytes_len(v / 256, (n - 1) as nat);
    }
}

/// Decoding the `n` little-endian bytes of `v` gives `v` back, where `n`
/// bytes can hold it.
pub proof fn lemma_le_roundtrip(v: nat, n: nat)
    requires
        v < radix(n),
    ensures
        le_value(le_bytes(v, n)) == v,
    decreases n,
{
    if n > 0 {
        let rest = le_bytes(v / 256, (n - 1) as nat);
        lemma_le_roundtrip(v / 256, (n - 1) as nat);
        assert(le_bytes(v, n).drop_first() =~= rest);
    }
}

/// The message reads back as what it was made of: the tag at offset 0, the
/// price at offset 1, the time at offset 9.
pub proof fn lemma_payload_roundtrip(price_e6: u64, timestamp: i64)
    ensures
        push_payload(price_e6, timestamp).len() == PUSH_PAYLOAD_LEN,
        push_payload(price_e6, timestamp)[0] == PUSH_ORACLE_PRICE_TAG,
        le_value(field(push_payload(price_e6, timestamp), 1, 8)) == price_e6,
        signed_value(le_value(field(push_payload(price_e6, timestamp), 9, 8)), 8) == timestamp,
{
    let price_bytes = le_bytes(price_e6 as nat, 8);
    let time_bytes = le_bytes(unsigned_value(timestamp as int), 8);
    let payload = push_payload(price_e6, timestamp);
    lemma_radix_values();
    lemma_le_bytes_len(price_e6 as nat, 8);
    lemma_le_bytes_len(unsigned_value(timestamp as int), 8);
    lemma_le_roundtrip(price_e6 as nat, 8);
    lemma_le_roundtrip(unsigned_value(timestamp as int), 8);
    assert(field(payload, 1, 8) =~= price_bytes);
    assert(field(payload, 9, 8) =~= time_bytes);
}

/// Appends the eight little-endian bytes of `v` to `out`.
fn push_u64_le(out: &mut Vec<u8>, v: u64)
    ensures
        final(out)@ == old(out)@ + le_bytes(v as nat, 8),
{
    let mut rest: u64 = v;
    let mut i: usize = 0;
    while i < 8
        invariant
            i <= 8,
            old(out)@ + le_bytes(v as nat, 8) == out@ + le_bytes(rest as nat, (8 - i) as nat),
        decreases 8 - i,
    {
        let ghost before = out@;
        let b: u8 = (rest % 256) as u8;
        out.push(b);
        proof {
            let tail = le_bytes((rest / 256) as nat, (8 - i - 1) as nat);
            assert(before + le_bytes(rest as nat, (8 - i) as nat) =~= before.push(b) + tail);
        }
        rest = rest / 256;
        i = i + 1;
    }
    assert(out@ + le_bytes(rest as nat, 0) =~= out@);
}

/// Builds the message for the smoothed price `price_e6` at time `timestamp`.
pub fn encode_push_payload(price_e6: u64, timestamp: i64) -> (data: Vec<u8>)
    ensures
        data@ == push_payload(price_e6, timestamp),
{
    let mut data: Vec<u8> = Vec::with_capacity(PUSH_PAYLOAD_LEN);
    data.push(PUSH_ORACLE_PRICE_TAG);
    push_u64_le(&mut data, price_e6);
    proof {
        lemma_radix_values();
    }
    let bits: u64 = if timestamp >= 0 {
        timestamp as u64
    } else {
        ((timestamp - i64::MIN) as u64) + 0x8000_0000_0000_0000
    };
    push_u64_le(&mut data, bits);
    assert(data@ =~= push_payload(price_e6, timestamp));
    data
}

} // verus!

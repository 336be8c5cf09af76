//! The programs and the feed that the oracle accepts.

use vstd::prelude::*;
use crate::address::Address;

verus! {

/// The consumer program that the smoothed price is published to.
pub const PERCOLATOR_PROG_ID: [u8; 32] = [
    0xb7, 0xf0, 0x6a, 0xa1, 0xef, 0x72, 0xe8, 0x31, 0x00, 0x2d, 0xdc, 0x7f, 0x03, 0x16, 0x89, 0xec,
    0x5a, 0x46, 0x9c, 0xf5, 0xd9, 0x57, 0x54, 0x67, 0x21, 0x51, 0xf9, 0xaf, 0xee, 0x1b, 0x1e, 0x37,
];

/// The publisher program that receives feed updates.
pub const PYTH_RECEIVER: [u8; 32] = [
    0x0c, 0xb7, 0xfa, 0xbb, 0x52, 0xf7, 0xa6, 0x48, 0xbb, 0x5b, 0x31, 0x7d, 0x9a, 0x01, 0x8b, 0x90,
    0x57, 0xcb, 0x02, 0x47, 0x74, 0xfa, 0xfe, 0x01, 0xe6, 0xc4, 0xdf, 0x98, 0xcc, 0x38, 0x58, 0x81,
];

/// The publisher program that pushes feed updates.
pub const PYTH_PUSH_ORACLE: [u8; 32] = [
    0x0c, 0x4a, 0xa0, 0x12, 0x8e, 0x95, 0xd3, 0xe1, 0x62, 0x2a, 0xa5, 0x01, 0xc5, 0x85, 0xa9, 0xeb,
    0x07, 0xb3, 0x73, 0x54, 0xc1, 0x08, 0xea, 0x0b, 0x79, 0x1b, 0x45, 0x6d, 0xc7, 0xee, 0xa3, 0x36,
];

/// The identifier of the SOL/USD feed.
pub const SOL_USD_FEED_ID: [u8; 32] = [
    0xef, 0x0d, 0x8b, 0x6f, 0xda, 0x2c, 0xeb, 0xa4, 0x1d, 0xa1, 0x5d, 0x40, 0x95, 0xd1, 0xda, 0x39,
    0x2a, 0x0d, 0x2f, 0x8e, 0xd0, 0xc6, 0xc7, 0xbc, 0x0f, 0x4c, 0xfa, 0xc8, 0xc2, 0x80, 0xb5, 0x6d,
];

/// The token-ledger program.
pub const SPL_TOKEN_PROGRAM: [u8; 32] = [
    0x06, 0xdd, 0xf6, 0xe1, 0xd7, 0x65, 0xa1, 0x93, 0xd9, 0xcb, 0xe1, 0x46, 0xce, 0xeb, 0x79, 0xac,
    0x1c, 0xb4, 0x85, 0xed, 0x5f, 0x5b, 0x37, 0x91, 0x3a, 0x8c, 0xf5, 0x85, 0x7e, 0xff, 0x00, 0xa9,
];

/// The token-ledger program with extensions.
pub const SPL_TOKEN_2022_PROGRAM: [u8; 32] = [
    0x06, 0xdd, 0xf6, 0xe1, 0xee, 0x75, 0x8f, 0xde, 0x18, 0x42, 0x5d, 0xbc, 0xe4, 0x6c, 0xcd, 0xda,
    0xb6, 0x1a, 0xfc, 0x4d, 0x83, 0xb9, 0x0d, 0x27, 0xfe, 0xbd, 0xf9, 0x28, 0xd8, 0xa1, 0x8b, 0xfc,
];

/// `id` is the consumer program.
pub open spec fn is_percolator(id: Address) -> bool {
    id.bytes == PERCOLATOR_PROG_ID
}

/// `id` is one of the two accepted token-ledger programs.
pub open spec fn is_token_ledger(id: Address) -> bool {
    id.bytes == SPL_TOKEN_PROGRAM || id.bytes == SPL_TOKEN_2022_PROGRAM
}

/// `id` is one of the two accepted publisher programs.
pub open spec fn is_publisher(id: Address) -> bool {
    id.bytes == PYTH_RECEIVER || id.bytes == PYTH_PUSH_ORACLE
}

/// Whether `id` is the consumer program.
pub fn is_percolator_program(id: &Address) -> (r: bool)
    ensures
        r == is_percolator(*id),
{
    id.has_bytes(&PERCOLATOR_PROG_ID)
}

/// Whether `id` is one of the two accepted token-ledger programs.
pub fn is_token_program(id: &Address) -> (r: bool)
    ensures
        r == is_token_ledger(*id),
{
    id.has_bytes(&SPL_TOKEN_PROGRAM) || id.has_bytes(&SPL_TOKEN_2022_PROGRAM)
}

/// Whether `id` is one of the two accepted publisher programs.
pub fn is_publisher_program(id: &Address) -> (r: bool)
    ensures
        r == is_publisher(*id),
{
    id.has_bytes(&PYTH_RECEIVER) || id.has_bytes(&PYTH_PUSH_ORACLE)
}

} // verus!

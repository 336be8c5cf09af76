use std::str::FromStr;

use anchor_lang::prelude::Pubkey;
use oracle_price::address::Address;
use oracle_price::error::OracleError;
use oracle_price::layout::{read_i64_le, read_u64_le};
use oracle_price::payload::{encode_push_payload, PUSH_ORACLE_PRICE_TAG, PUSH_PAYLOAD_LEN};
use oracle_price::programs::{
    is_percolator_program, is_publisher_program, is_token_program, PERCOLATOR_PROG_ID,
    PYTH_PUSH_ORACLE, PYTH_RECEIVER, SOL_USD_FEED_ID, SPL_TOKEN_2022_PROGRAM, SPL_TOKEN_PROGRAM,
};

fn decoded(base58: &str) -> [u8; 32] {
    Pubkey::from_str(base58).unwrap().to_bytes()
}

#[test]
fn consumer_program_is_the_published_address() {
    assert_eq!(PERCOLATOR_PROG_ID, decoded("DP2EbA2v6rmkmNieZpnjumXosuXQ93r9jyb9eSzzkf1x"));
}

#[test]
fn publisher_programs_are_the_published_addresses() {
    assert_eq!(PYTH_RECEIVER, decoded("rec5EKMGg6MxZYaMdyBfgwp4d5rB9T1VQH5pJv5LtFJ"));
    assert_eq!(PYTH_PUSH_ORACLE, decoded("pythWSnswVUd12oZpeFP8e9CVaEqJg25g1Vtc2biRsT"));
}

#[test]
fn token_ledgers_are_the_published_addresses() {
    assert_eq!(SPL_TOKEN_PROGRAM, decoded("TokenkegQfeZyiNwAJbNbGKPFXCWuBvf9Ss623VQ5DA"));
    assert_eq!(SPL_TOKEN_2022_PROGRAM, decoded("TokenzQdBNbLqP5VEhdkAS6EPFLC1PHnBqCXEpPxuEb"));
}

#[test]
fn feed_identifier_is_the_sol_usd_feed() {
    let hex = "ef0d8b6fda2ceba41da15d4095d1da392a0d2f8ed0c6c7bc0f4cfac8c280b56d";
    let mut expected = [0u8; 32];
    for i in 0..32 {
        expected[i] = u8::from_str_radix(&hex[2 * i..2 * i + 2], 16).unwrap();
    }
    assert_eq!(SOL_USD_FEED_ID, expected);
}

#[test]
fn only_the_accepted_programs_are_recognised() {
    let token = Address::new_from_array(SPL_TOKEN_PROGRAM);
    let token_2022 = Address::new_from_array(SPL_TOKEN_2022_PROGRAM);
    let receiver = Address::new_from_array(PYTH_RECEIVER);
    let push = Address::new_from_array(PYTH_PUSH_ORACLE);
    let percolator = Address::new_from_array(PERCOLATOR_PROG_ID);
    assert!(is_token_program(&token) && is_token_program(&token_2022));
    assert!(!is_token_program(&receiver) && !is_token_program(&percolator));
    assert!(is_publisher_program(&receiver) && is_publisher_program(&push));
    assert!(!is_publisher_program(&token) && !is_publisher_program(&percolator));
    assert!(is_percolator_program(&percolator));
    assert!(!is_percolator_program(&token) && !is_percolator_program(&push));
    let mut near = SPL_TOKEN_PROGRAM;
    near[31] ^= 1;
    assert!(!is_token_program(&Address::new_from_array(near)));
}

#[test]
fn message_has_the_fixed_format() {
    let data = encode_push_payload(0x0102_0304_0506_0708, 0x1112_1314_1516_1718);
    assert_eq!(
        data,
        vec![
            17, 0x08, 0x07, 0x06, 0x05, 0x04, 0x03, 0x02, 0x01, 0x18, 0x17, 0x16, 0x15, 0x14,
            0x13, 0x12, 0x11
        ]
    );
    assert_eq!(PUSH_ORACLE_PRICE_TAG, 17);
    assert_eq!(PUSH_PAYLOAD_LEN, 17);
}

#[test]
fn message_encodes_a_negative_time_in_twos_complement() {
    let data = encode_push_payload(1, -2);
    assert_eq!(data[1..9], [1, 0, 0, 0, 0, 0, 0, 0]);
    assert_eq!(data[9..17], [0xfe, 0xff, 0xff, 0xff, 0xff, 0xff, 0xff, 0xff]);
    assert_eq!(encode_push_payload(0, i64::MIN)[9..17], [0, 0, 0, 0, 0, 0, 0, 0x80]);
    assert_eq!(encode_push_payload(u64::MAX, i64::MAX)[1..9], [0xff; 8]);
    assert_eq!(encode_push_payload(u64::MAX, i64::MAX)[9..17], i64::MAX.to_le_bytes());
}

#[test]
fn message_reads_back_as_what_it_was_made_of() {
    let cases: [(u64, i64); 5] = [
        (0, 0),
        (7_500, 1_700_000_000),
        (u64::MAX, i64::MAX),
        (1, i64::MIN),
        (0x8000_0000_0000_0000, -1),
    ];
    for (price, time) in cases {
        let data = encode_push_payload(price, time);
        assert_eq!(data.len(), 17);
        assert_eq!(data[0], 17);
        assert_eq!(read_u64_le(&data, 1), Ok(price));
        assert_eq!(read_i64_le(&data, 9), Ok(time));
    }
}

#[test]
fn every_rejection_has_its_message() {
    assert_eq!(OracleError::SlotAlreadyPushed.message(), "Price already pushed this slot");
    assert_eq!(
        OracleError::WarmupAdminOnly.message(),
        "Only admin can push during warm-up period (first 10 pushes)"
    );
    assert_eq!(OracleError::PoolMismatch.message(), "Pool address does not match oracle PDA");
    assert_eq!(
        OracleError::PoolTokenMismatch.message(),
        "Pool token accounts do not match pool data"
    );
    assert_eq!(
        OracleError::InvalidTokenOwner.message(),
        "Token account not owned by SPL Token Program"
    );
    assert_eq!(
        OracleError::InvalidPythOwner.message(),
        "Pyth account not owned by Pyth Receiver or Push Oracle"
    );
    assert_eq!(OracleError::InvalidPythFeedId.message(), "Pyth feed ID does not match SOL/USD");
    assert_eq!(OracleError::InvalidPythPrice.message(), "Pyth price is not positive");
    assert_eq!(OracleError::PythStale.message(), "Pyth price is stale (>60s)");
    assert_eq!(
        OracleError::PythConfidenceTooWide.message(),
        "Pyth confidence interval too wide (>5%)"
    );
    assert_eq!(OracleError::ZeroReserve.message(), "Pool reserve is zero");
    assert_eq!(OracleError::ZeroPrice.message(), "Calculated price is zero");
    assert_eq!(
        OracleError::AccountDataTooSmall.message(),
        "Account data too small for expected read"
    );
    assert_eq!(OracleError::InvalidSlabOwner.message(), "Slab not owned by percolator-prog");
    assert_eq!(
        OracleError::InvalidPercolatorProgram.message(),
        "Invalid percolator program ID"
    );
    assert_eq!(OracleError::ZeroDivisor.message(), "Price divisor is zero");
    assert_eq!(
        OracleError::PriceOverflow.message(),
        "Calculated value does not fit in 64 bits"
    );
}

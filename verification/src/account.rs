//! Accounts as the oracle sees them.

use vstd::prelude::*;
use crate::address::Address;

verus! {

/// What the oracle reads of an account whose data it never looks at: its
/// address and the program that owns it.
#[derive(Clone, Copy, Debug, PartialEq, Eq)]
pub struct AccountHeader {
    /// The account's own address.
    pub key: Address,
    /// The program that owns the account.
    pub owner: Address,
}

/// What the oracle reads of an account: its address, the program that owns
/// it, and its data at the moment of the operation.
#[derive(Clone, Debug, PartialEq, Eq)]
pub struct AccountSnapshot {
    /// The account's own address.
    pub key: Address,
    /// The program that owns the account.
    pub owner: Address,
    /// The account's raw data.
    pub data: Vec<u8>,
}

} // verus!

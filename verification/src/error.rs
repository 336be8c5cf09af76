//! Typed rejections of the oracle.

use vstd::prelude::*;

verus! {

/// Every way in which an oracle operation can be rejected.
///
/// A rejection is final for the operation that met it: nothing is retried and
/// no state is changed.
#[derive(Clone, Copy, Debug, PartialEq, Eq, Structural)]
pub enum OracleError {
    /// The sequence tick has not advanced since the last successful refresh.
    SlotAlreadyPushed,
    /// The history is still warming up and the caller is not the admin.
    WarmupAdminOnly,
    /// The pool account is not the one this oracle is bound to.
    PoolMismatch,
    /// A reserve account is not the one named in the pool's data.
    PoolTokenMismatch,
    /// A reserve account is not owned by an accepted token-ledger program.
    InvalidTokenOwner,
    /// The feed account is not owned by an accepted publisher program.
    InvalidPythOwner,
    /// The feed account carries another feed identifier than SOL/USD.
    InvalidPythFeedId,
    /// The feed's raw price is zero or negative.
    InvalidPythPrice,
    /// The feed was published more than the allowed time ago, or in the future.
    PythStale,
    /// The feed's confidence interval is too wide for its price.
    PythConfidenceTooWide,
    /// A pool reserve is zero.
    ZeroReserve,
    /// The computed price truncates to zero.
    ZeroPrice,
    /// An account's data is too short for a read at a fixed offset.
    AccountDataTooSmall,
    /// The consumer's record is not owned by the consumer program.
    InvalidSlabOwner,
    /// The program account handed in is not the consumer program.
    InvalidPercolatorProgram,
    /// The divisor of the price computation is zero.
    ZeroDivisor,
    /// A computed value does not fit in 64 bits.
    PriceOverflow,
}

impl OracleError {
    /// What the rejection says to a person.
    pub open spec fn text(self) -> Seq<char> {
        match self {
            OracleError::SlotAlreadyPushed => "Price already pushed this slot"@,
            OracleError::WarmupAdminOnly =>
                "Only admin can push during warm-up period (first 10 pushes)"@,
            OracleError::PoolMismatch => "Pool address does not match oracle PDA"@,
            OracleError::PoolTokenMismatch => "Pool token accounts do not match pool data"@,
            OracleError::InvalidTokenOwner => "Token account not owned by SPL Token Program"@,
            OracleError::InvalidPythOwner =>
                "Pyth account not owned by Pyth Receiver or Push Oracle"@,
            OracleError::InvalidPythFeedId => "Pyth feed ID does not match SOL/USD"@,
            OracleError::InvalidPythPrice => "Pyth price is not positive"@,
            OracleError::PythStale => "Pyth price is stale (>60s)"@,
            OracleError::PythConfidenceTooWide => "Pyth confidence interval too wide (>5%)"@,
            OracleError::ZeroReserve => "Pool reserve is zero"@,
            OracleError::ZeroPrice => "Calculated price is zero"@,
            OracleError::AccountDataTooSmall => "Account data too small for expected read"@,
            OracleError::InvalidSlabOwner => "Slab not owned by percolator-prog"@,
            OracleError::InvalidPercolatorProgram => "Invalid percolator program ID"@,
            OracleError::ZeroDivisor => "Price divisor is zero"@,
            OracleError::PriceOverflow => "Calculated value does not fit in 64 bits"@,
        }
    }

    /// The message of the rejection.
    pub fn message(&self) -> (m: &'static str)
        ensures
            m@ == self.text(),
    {
        match self {
            OracleError::SlotAlreadyPushed => "Price already pushed this slot",
            OracleError::WarmupAdminOnly =>
                "Only admin can push during warm-up period (first 10 pushes)",
            OracleError::PoolMismatch => "Pool address does not match oracle PDA",
            OracleError::PoolTokenMismatch => "Pool token accounts do not match pool data",
            OracleError::InvalidTokenOwner => "Token account not owned by SPL Token Program",
            OracleError::InvalidPythOwner =>
                "Pyth account not owned by Pyth Receiver or Push Oracle",
            OracleError::InvalidPythFeedId => "Pyth feed ID does not match SOL/USD",
            OracleError::InvalidPythPrice => "Pyth price is not positive",
            OracleError::PythStale => "Pyth price is stale (>60s)",
            OracleError::PythConfidenceTooWide => "Pyth confidence interval too wide (>5%)",
            OracleError::ZeroReserve => "Pool reserve is zero",
            OracleError::ZeroPrice => "Calculated price is zero",
            OracleError::AccountDataTooSmall => "Account data too small for expected read",
            OracleError::InvalidSlabOwner => "Slab not owned by percolator-prog",
            OracleError::InvalidPercolatorProgram => "Invalid percolator program ID",
            OracleError::ZeroDivisor => "Price divisor is zero",
            OracleError::PriceOverflow => "Calculated value does not fit in 64 bits",
        }
    }
}

} // verus!

//! On-chain price oracle core: derives a token's USD price from the reserves of
//! an exchange pool and an external SOL/USD feed, smooths it over a short
//! history and prepares the smoothed value for a downstream consumer.
//!
//! The modules, leaf first: [`layout`] decodes raw account data, [`validate`]
//! checks the accounts and reads the inputs, [`engine`] computes the price,
//! [`state`] and [`history`] hold the record with its moving average, and
//! [`refresh`] and [`payload`] are the operations and the message they
//! publish.

pub mod account;
pub mod address;
pub mod engine;
pub mod error;
pub mod history;
pub mod layout;
pub mod payload;
pub mod programs;
pub mod refresh;
pub mod state;
pub mod validate;

pub use crate::error::OracleError;
pub use crate::refresh::{
    compute_price, initialize_oracle, push_price, ComputePrice, InitializeOracle, PushPrice,
};
pub use crate::state::PriceOracle;

//! The price oracle: the only source of prices that may move funds.

pub mod pyth;

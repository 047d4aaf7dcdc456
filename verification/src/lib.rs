//! Conditional-order execution engine: escrowed positions that are swapped
//! once an oracle price crosses a stop-loss or take-profit threshold.

pub mod constants;
pub mod errors;
pub mod fees;
pub mod math;
pub mod state;
pub mod oracle;
pub mod dex;
pub mod slippage;
pub mod instructions;
pub mod lifecycle;

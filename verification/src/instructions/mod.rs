//! The operations of the engine, one module each.

pub mod cancel_position;
pub mod execute_position;
pub mod initialize;
pub mod open_position;
pub mod swap;
pub mod withdraw_manual;

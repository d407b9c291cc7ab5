//! Fee splitting for a treasury: a validated fee policy and the arithmetic that
//! divides a 256-bit value into a fee and a remainder.

pub mod amount;
pub mod treasury;

pub use amount::Amount;
pub use treasury::{TreasuryConfig, TreasuryError};

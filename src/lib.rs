//! Price-comparison and arbitrage decisions for a pair of exchange quotes.
//!
//! Amounts are fixed-point integers in millionths of the quote asset's unit
//! (one dollar is `1_000_000`), so every comparison and subtraction is exact.
pub mod profit;
pub mod report;

pub use profit::{calculate_profit, ArbitrageDirection, ProfitResult};
pub use report::{assess, Assessment};

use vstd::prelude::*;

use crate::profit::{ArbitrageDirection, ProfitResult};

verus! {

/// What a monitor does with a verdict once the minimum-profit threshold is
/// applied.
#[derive(Clone, Copy, Debug, PartialEq, Eq, Structural)]
pub enum Assessment {
    /// An opportunity whose net profit reaches the threshold.
    Actionable,
    /// An opportunity whose net profit falls short of the threshold.
    BelowMinProfit,
    /// No opportunity after cost.
    NoOpportunity,
}

/// Applies the reporting threshold `min_profit_usd` (millionths of a dollar)
/// to a verdict. The threshold only gates reporting: whether an opportunity
/// exists is the verdict's own decision.
pub fn assess(result: &ProfitResult, min_profit_usd: u64) -> (r: Assessment)
    ensures
        result.direction == ArbitrageDirection::NoArbitrage ==> r == Assessment::NoOpportunity,
        result.direction != ArbitrageDirection::NoArbitrage && result.profit_usd >= min_profit_usd
            ==> r == Assessment::Actionable,
        result.direction != ArbitrageDirection::NoArbitrage && result.profit_usd < min_profit_usd
            ==> r == Assessment::BelowMinProfit,
{
    match result.direction {
        ArbitrageDirection::NoArbitrage => Assessment::NoOpportunity,
        _ => {
            if result.profit_usd >= min_profit_usd {
                Assessment::Actionable
            } else {
                Assessment::BelowMinProfit
            }
        },
    }
}

} // verus!

use vstd::prelude::*;

verus! {

/// Which exchange to buy on and which to sell on. The first exchange is
/// QuickSwap and the second is SushiSwap.
#[derive(Clone, Copy, Debug, PartialEq, Eq, Structural)]
pub enum ArbitrageDirection {
    /// The first exchange is cheaper: buy there, sell on the second.
    QuickSwapToSushiSwap,
    /// The second exchange is cheaper: buy there, sell on the first.
    SushiSwapToQuickSwap,
    /// No trade clears its cost.
    NoArbitrage,
}

/// The verdict of one comparison of two quotes.
#[derive(Clone, Copy, Debug, PartialEq, Eq, Structural)]
pub struct ProfitResult {
    /// Net profit after cost, in millionths of a dollar; zero exactly when
    /// there is no opportunity.
    pub profit_usd: u64,
    pub direction: ArbitrageDirection,
}

/// Direction of the opportunity between a first quote `a` and a second quote
/// `b` when executing both trades costs `cost`.
pub open spec fn direction_of(a: int, b: int, cost: int) -> ArbitrageDirection {
    if a > b && a - b - cost > 0 {
        ArbitrageDirection::SushiSwapToQuickSwap
    } else if b > a && b - a - cost > 0 {
        ArbitrageDirection::QuickSwapToSushiSwap
    } else {
        ArbitrageDirection::NoArbitrage
    }
}

/// Net profit of the opportunity between `a` and `b` at cost `cost`: the price
/// gap less the cost where that is positive, else zero.
pub open spec fn profit_of(a: int, b: int, cost: int) -> int {
    if a > b && a - b - cost > 0 {
        a - b - cost
    } else if b > a && b - a - cost > 0 {
        b - a - cost
    } else {
        0
    }
}

/// The verdict that comparing `a` with `b` at cost `cost` gives.
pub open spec fn verdict_of(a: u64, b: u64, cost: u64) -> ProfitResult {
    ProfitResult {
        profit_usd: profit_of(a as int, b as int, cost as int) as u64,
        direction: direction_of(a as int, b as int, cost as int),
    }
}

/// The direction with the roles of the two exchanges exchanged.
pub open spec fn reversed(d: ArbitrageDirection) -> ArbitrageDirection {
    match d {
        ArbitrageDirection::QuickSwapToSushiSwap => ArbitrageDirection::SushiSwapToQuickSwap,
        ArbitrageDirection::SushiSwapToQuickSwap => ArbitrageDirection::QuickSwapToSushiSwap,
        ArbitrageDirection::NoArbitrage => ArbitrageDirection::NoArbitrage,
    }
}

/// Compares the first exchange's quote `price_a` with the second's `price_b`
/// and reports whether buying on the cheaper one and selling on the dearer one
/// clears the cost `gas_cost_usd`. Both comparisons are strict: an equal pair
/// of quotes, or a gap that the cost eats exactly, is no opportunity.
pub fn calculate_profit(price_a: u64, price_b: u64, gas_cost_usd: u64) -> (r: ProfitResult)
    ensures
        r == verdict_of(price_a, price_b, gas_cost_usd),
        price_a == price_b ==> r.direction == ArbitrageDirection::NoArbitrage && r.profit_usd
            == 0,
        price_a > price_b ==> if price_a - price_b - gas_cost_usd > 0 {
            r.direction == ArbitrageDirection::SushiSwapToQuickSwap && r.profit_usd == price_a
                - price_b - gas_cost_usd
        } else {
            r.direction == ArbitrageDirection::NoArbitrage && r.profit_usd == 0
        },
        price_a < price_b ==> if price_b - price_a - gas_cost_usd > 0 {
            r.direction == ArbitrageDirection::QuickSwapToSushiSwap && r.profit_usd == price_b
                - price_a - gas_cost_usd
        } else {
            r.direction == ArbitrageDirection::NoArbitrage && r.profit_usd == 0
        },
        r.profit_usd > 0 <==> r.direction != ArbitrageDirection::NoArbitrage,
{
    if price_a > price_b {
        let gap: u64 = price_a - price_b;
        if gap > gas_cost_usd {
            return ProfitResult {
                profit_usd: gap - gas_cost_usd,
                direction: ArbitrageDirection::SushiSwapToQuickSwap,
            };
        }
    } else if price_b > price_a {
        let gap: u64 = price_b - price_a;
        if gap > gas_cost_usd {
            return ProfitResult {
                profit_usd: gap - gas_cost_usd,
                direction: ArbitrageDirection::QuickSwapToSushiSwap,
            };
        }
    }
    ProfitResult { profit_usd: 0, direction: ArbitrageDirection::NoArbitrage }
}

/// Equal quotes never make an opportunity, whatever the cost.
pub proof fn lemma_equal_quotes_no_opportunity(a: u64, b: u64, cost: u64)
    requires
        a == b,
    ensures
        verdict_of(a, b, cost).direction == ArbitrageDirection::NoArbitrage,
        verdict_of(a, b, cost).profit_usd == 0,
{
}

/// When the first quote is higher, the verdict is to buy on the second
/// exchange for the gap less the cost if that is positive, and no opportunity
/// otherwise.
pub proof fn lemma_first_higher(a: u64, b: u64, cost: u64)
    requires
        a > b,
    ensures
        a - b - cost > 0 ==> verdict_of(a, b, cost) == (ProfitResult {
            profit_usd: (a - b - cost) as u64,
            direction: ArbitrageDirection::SushiSwapToQuickSwap,
        }),
        a - b - cost <= 0 ==> verdict_of(a, b, cost) == (ProfitResult {
            profit_usd: 0,
            direction: ArbitrageDirection::NoArbitrage,
        }),
{
}

/// When the second quote is higher, the verdict is to buy on the first
/// exchange for the gap less the cost if that is positive, and no opportunity
/// otherwise.
pub proof fn lemma_second_higher(a: u64, b: u64, cost: u64)
    requires
        a < b,
    ensures
        b - a - cost > 0 ==> verdict_of(a, b, cost) == (ProfitResult {
            profit_usd: (b - a - cost) as u64,
            direction: ArbitrageDirection::QuickSwapToSushiSwap,
        }),
        b - a - cost <= 0 ==> verdict_of(a, b, cost) == (ProfitResult {
            profit_usd: 0,
            direction: ArbitrageDirection::NoArbitrage,
        }),
{
}

/// Swapping the two quotes keeps the profit and reverses the direction; no
/// opportunity stays no opportunity.
pub proof fn lemma_swap_symmetry(a: u64, b: u64, cost: u64)
    ensures
        verdict_of(b, a, cost).profit_usd == verdict_of(a, b, cost).profit_usd,
        verdict_of(b, a, cost).direction == reversed(verdict_of(a, b, cost).direction),
{
}

/// The verdict depends on the two quotes and the cost alone: the same inputs
/// give the same verdict on every call.
pub proof fn lemma_same_inputs_same_verdict(
    a1: u64,
    b1: u64,
    cost1: u64,
    a2: u64,
    b2: u64,
    cost2: u64,
)
    requires
        a1 == a2,
        b1 == b2,
        cost1 == cost2,
    ensures
        verdict_of(a1, b1, cost1) == verdict_of(a2, b2, cost2),
{
}

} // verus!

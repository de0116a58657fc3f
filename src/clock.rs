use vstd::prelude::*;

verus! {

/// The least budget, in milliseconds, handed to a search.
pub const MIN_BUDGET_MS: u64 = 100;

/// Remaining time and increment of each side, in milliseconds.
#[derive(Clone, Copy, Debug, PartialEq, Eq, Structural)]
pub struct Clock {
    pub wtime: u64,
    pub btime: u64,
    pub winc: u64,
    pub binc: u64,
}

/// A budget less the time already spent, never below the minimum budget.
pub open spec fn charged(budget: u64, elapsed: u64) -> u64 {
    if budget >= elapsed + MIN_BUDGET_MS {
        (budget - elapsed) as u64
    } else {
        MIN_BUDGET_MS
    }
}

/// Takes `elapsed` milliseconds off a budget, flooring the result at the
/// minimum budget.
pub fn charge(budget: u64, elapsed: u64) -> (r: u64)
    ensures
        r == charged(budget, elapsed),
        r >= MIN_BUDGET_MS,
        r <= budget || r == MIN_BUDGET_MS,
{
    if budget >= elapsed && budget - elapsed >= MIN_BUDGET_MS {
        budget - elapsed
    } else {
        MIN_BUDGET_MS
    }
}

impl Clock {
    /// The clock handed to a speculative search started right after a
    /// decision that took `elapsed` milliseconds: both budgets charged with
    /// the elapsed time, increments unchanged.
    pub fn after_thinking(&self, elapsed: u64) -> (r: Clock)
        ensures
            r.wtime == charged(self.wtime, elapsed),
            r.btime == charged(self.btime, elapsed),
            r.winc == self.winc,
            r.binc == self.binc,
    {
        Clock {
            wtime: charge(self.wtime, elapsed),
            btime: charge(self.btime, elapsed),
            winc: self.winc,
            binc: self.binc,
        }
    }
}

} // verus!

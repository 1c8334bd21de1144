//! The crossover signal of a fast and a slow moving average.

use vstd::prelude::*;

verus! {

/// Period of the fast moving average, in points.
pub const FAST_PERIOD: usize = 12;

/// Period of the slow moving average, in points.
pub const SLOW_PERIOD: usize = 26;

/// What the last step of the two averages says.
#[derive(Clone, Copy, Debug, PartialEq, Eq, Structural)]
pub enum Signal {
    /// The fast average crossed above the slow one at the last point.
    Buy,
    /// The fast average crossed below the slow one at the last point.
    Sell,
    /// The fast average is above the slow one, with no cross at the last point.
    BullishBias,
    /// Neither a cross nor the fast average above the slow one.
    BearishBias,
    /// There are fewer than two points to compare.
    Undetermined,
}

/// The signal of one step, from the two averages before and after it.
pub open spec fn crossover(prev_fast: int, prev_slow: int, cur_fast: int, cur_slow: int) -> Signal {
    if prev_fast <= prev_slow && cur_fast > cur_slow {
        Signal::Buy
    } else if prev_fast >= prev_slow && cur_fast < cur_slow {
        Signal::Sell
    } else if cur_fast > cur_slow {
        Signal::BullishBias
    } else {
        Signal::BearishBias
    }
}

/// The signal of two series: the crossover at the last two points of each,
/// or `Undetermined` where one of them has fewer than two.
pub open spec fn signal_of(fast: Seq<i64>, slow: Seq<i64>) -> Signal {
    if fast.len() < 2 || slow.len() < 2 {
        Signal::Undetermined
    } else {
        crossover(
            fast[fast.len() - 2] as int,
            slow[slow.len() - 2] as int,
            fast[fast.len() - 1] as int,
            slow[slow.len() - 1] as int,
        )
    }
}

/// Classifies the last step of a fast and a slow series.
pub fn classify(fast: &[i64], slow: &[i64]) -> (signal: Signal)
    ensures
        signal == signal_of(fast@, slow@),
        signal == Signal::Undetermined <==> fast@.len() < 2 || slow@.len() < 2,
{
    let n: usize = fast.len();
    let m: usize = slow.len();
    if n < 2 || m < 2 {
        return Signal::Undetermined;
    }
    let prev_fast: i64 = fast[n - 2];
    let prev_slow: i64 = slow[m - 2];
    let cur_fast: i64 = fast[n - 1];
    let cur_slow: i64 = slow[m - 1];
    if prev_fast <= prev_slow && cur_fast > cur_slow {
        Signal::Buy
    } else if prev_fast >= prev_slow && cur_fast < cur_slow {
        Signal::Sell
    } else if cur_fast > cur_slow {
        Signal::BullishBias
    } else {
        Signal::BearishBias
    }
}

impl Signal {
    /// A signal that calls for a chart and a delivery: a cross either way.
    pub open spec fn actionable(self) -> bool {
        self == Signal::Buy || self == Signal::Sell
    }

    /// Whether the signal is a cross.
    pub fn is_actionable(&self) -> (b: bool)
        ensures
            b == self.actionable(),
    {
        match self {
            Signal::Buy => true,
            Signal::Sell => true,
            _ => false,
        }
    }

    /// The name under which the signal is shown.
    pub open spec fn name_spec(self) -> Seq<char> {
        match self {
            Signal::Buy => "Buy"@,
            Signal::Sell => "Sell"@,
            Signal::BullishBias => "BullishBias"@,
            Signal::BearishBias => "BearishBias"@,
            Signal::Undetermined => "Undetermined"@,
        }
    }

    /// The name under which the signal is shown.
    pub fn name(&self) -> (s: &'static str)
        ensures
            s@ == self.name_spec(),
    {
        match self {
            Signal::Buy => "Buy",
            Signal::Sell => "Sell",
            Signal::BullishBias => "BullishBias",
            Signal::BearishBias => "BearishBias",
            Signal::Undetermined => "Undetermined",
        }
    }

    /// The colour of a scan's card: green for a buy, red for a sell, grey otherwise.
    pub open spec fn scan_color_spec(self) -> u32 {
        match self {
            Signal::Buy => 0x00FF00u32,
            Signal::Sell => 0xFF0000u32,
            _ => 0x808080u32,
        }
    }

    /// The colour of a card sent by a scan.
    pub fn scan_color(&self) -> (c: u32)
        ensures
            c == self.scan_color_spec(),
    {
        match self {
            Signal::Buy => 0x00FF00u32,
            Signal::Sell => 0xFF0000u32,
            _ => 0x808080u32,
        }
    }

    /// The colour of a single chart's card: green on the bullish side, red on
    /// the bearish side, white where nothing is known.
    pub open spec fn chart_color_spec(self) -> u32 {
        match self {
            Signal::Buy | Signal::BullishBias => 0x00FF00u32,
            Signal::Sell | Signal::BearishBias => 0xFF0000u32,
            Signal::Undetermined => 0xFFFFFFu32,
        }
    }

    /// The colour of a card sent for one requested chart.
    pub fn chart_color(&self) -> (c: u32)
        ensures
            c == self.chart_color_spec(),
    {
        match self {
            Signal::Buy | Signal::BullishBias => 0x00FF00u32,
            Signal::Sell | Signal::BearishBias => 0xFF0000u32,
            Signal::Undetermined => 0xFFFFFFu32,
        }
    }
}

/// With fewer than two points in the fast series nothing is determined,
/// whatever the slow series holds.
pub proof fn lemma_short_series_undetermined(fast: Seq<i64>, slow: Seq<i64>)
    requires
        fast.len() < 2,
    ensures
        signal_of(fast, slow) == Signal::Undetermined,
{
}

/// A buy and a sell exclude each other, and each is a strict cross: the fast
/// average ends strictly on the other side of where it was.
pub proof fn lemma_cross_is_strict(prev_fast: int, prev_slow: int, cur_fast: int, cur_slow: int)
    ensures
        crossover(prev_fast, prev_slow, cur_fast, cur_slow) == Signal::Buy <==> (prev_fast
            <= prev_slow && cur_fast > cur_slow),
        crossover(prev_fast, prev_slow, cur_fast, cur_slow) == Signal::Sell <==> (prev_fast
            >= prev_slow && cur_fast < cur_slow),
        crossover(prev_fast, prev_slow, cur_fast, cur_slow) != Signal::Undetermined,
        crossover(prev_fast, prev_slow, cur_fast, cur_slow) == Signal::BullishBias ==> cur_fast
            > cur_slow && prev_fast > prev_slow,
{
}

} // verus!

//! What a chart of a price series and its two averages draws.
//!
//! The price line is drawn in two colours: in one where the fast average is
//! above the slow one, in the other elsewhere. Each colour is a series of
//! its own with gaps, and the point before a change of trend belongs to both,
//! so that the line has no break there.

use vstd::prelude::*;
use crate::outcome::RenderError;

verus! {

/// The most points that a chart shows: the most recent ones.
pub const LOOKBACK: usize = 90;

/// Width of the image, in pixels.
pub const WIDTH: u32 = 1200;

/// Height of the image, in pixels.
pub const HEIGHT: u32 = 600;

/// The index of the first point shown, of `len` points.
pub open spec fn window_start(len: nat) -> nat {
    if len > LOOKBACK {
        (len - LOOKBACK) as nat
    } else {
        0
    }
}

/// Whether the fast average is above the slow one at point `i`.
pub open spec fn trend_up(fast: Seq<i64>, slow: Seq<i64>, i: int) -> bool {
    fast[i] > slow[i]
}

/// Whether point `i` is drawn in the colour of a rising trend: the trend
/// rises there, or at the point after it.
pub open spec fn in_up_run(fast: Seq<i64>, slow: Seq<i64>, i: int) -> bool {
    trend_up(fast, slow, i) || (i + 1 < fast.len() && trend_up(fast, slow, i + 1))
}

/// Whether point `i` is drawn in the colour of a falling trend: the trend
/// does not rise there, or not at the point after it.
pub open spec fn in_down_run(fast: Seq<i64>, slow: Seq<i64>, i: int) -> bool {
    !trend_up(fast, slow, i) || (i + 1 < fast.len() && !trend_up(fast, slow, i + 1))
}

/// The rising-trend series of the window: the price where the point is
/// drawn in that colour, a gap elsewhere.
pub open spec fn up_series(prices: Seq<i64>, fast: Seq<i64>, slow: Seq<i64>) -> Seq<Option<i64>> {
    let start = window_start(prices.len()) as int;
    Seq::new(
        (prices.len() - start) as nat,
        |i: int|
            if in_up_run(fast, slow, start + i) {
                Some(prices[start + i])
            } else {
                None
            },
    )
}

/// The falling-trend series of the window.
pub open spec fn down_series(prices: Seq<i64>, fast: Seq<i64>, slow: Seq<i64>) -> Seq<
    Option<i64>,
> {
    let start = window_start(prices.len()) as int;
    Seq::new(
        (prices.len() - start) as nat,
        |i: int|
            if in_down_run(fast, slow, start + i) {
                Some(prices[start + i])
            } else {
                None
            },
    )
}

/// What is drawn of a series.
#[derive(Debug, PartialEq, Eq)]
pub struct ChartPlan {
    /// Index of the first point shown; the window runs from it to the end.
    pub start: usize,
    /// The price line where the trend rises, one entry per point shown.
    pub up: Vec<Option<i64>>,
    /// The price line where the trend falls, one entry per point shown.
    pub down: Vec<Option<i64>>,
    /// The most recent price.
    pub last: i64,
}

/// The error that the four series are refused with, if any: no price at
/// all, or lengths that differ.
pub open spec fn refusal(prices: nat, fast: nat, slow: nat, dates: nat) -> Option<RenderError> {
    if prices == 0 {
        Some(RenderError::EmptyInput)
    } else if prices != fast || prices != slow || prices != dates {
        Some(RenderError::LengthMismatch)
    } else {
        None
    }
}

/// Plans the chart of `prices` with the averages `fast` and `slow` and one
/// date for each point.
pub fn plan_chart(prices: &[i64], fast: &[i64], slow: &[i64], dates: &[String]) -> (plan: Result<
    ChartPlan,
    RenderError,
>)
    ensures
        match refusal(prices@.len(), fast@.len(), slow@.len(), dates@.len()) {
            Some(e) => plan == Err::<ChartPlan, RenderError>(e),
            None => plan matches Ok(p) && p.start == window_start(prices@.len()) && p.up@
                == up_series(prices@, fast@, slow@) && p.down@ == down_series(
                prices@,
                fast@,
                slow@,
            ) && p.last == prices@.last(),
        },
{
    let n: usize = prices.len();
    if n == 0 {
        return Err(RenderError::EmptyInput);
    }
    if n != fast.len() || n != slow.len() || n != dates.len() {
        return Err(RenderError::LengthMismatch);
    }
    let start: usize = if n > LOOKBACK {
        n - LOOKBACK
    } else {
        0
    };
    let mut up: Vec<Option<i64>> = Vec::new();
    let mut down: Vec<Option<i64>> = Vec::new();
    let mut j: usize = start;
    while j < n
        invariant
            n == prices@.len(),
            n == fast@.len(),
            n == slow@.len(),
            start == window_start(n as nat),
            start <= j <= n,
            up@.len() == j - start,
            down@.len() == j - start,
            forall|i: int| 0 <= i < j - start ==> up@[i] == up_series(prices@, fast@, slow@)[i],
            forall|i: int| 0 <= i < j - start ==> down@[i] == down_series(prices@, fast@, slow@)[i],
        decreases n - j,
    {
        let rises: bool = fast[j] > slow[j];
        let rises_next: bool = j + 1 < n && fast[j + 1] > slow[j + 1];
        let falls_next: bool = j + 1 < n && !(fast[j + 1] > slow[j + 1]);
        if rises || rises_next {
            up.push(Some(prices[j]));
        } else {
            up.push(None);
        }
        if !rises || falls_next {
            down.push(Some(prices[j]));
        } else {
            down.push(None);
        }
        j = j + 1;
    }
    assert(up@ =~= up_series(prices@, fast@, slow@));
    assert(down@ =~= down_series(prices@, fast@, slow@));
    Ok(ChartPlan { start, up, down, last: prices[n - 1] })
}

/// Every point shown is drawn in at least one of the two colours, and a
/// point at which the trend changes is drawn in both.
pub proof fn lemma_runs_leave_no_gap(fast: Seq<i64>, slow: Seq<i64>, i: int)
    requires
        0 <= i < fast.len(),
        fast.len() == slow.len(),
    ensures
        in_up_run(fast, slow, i) || in_down_run(fast, slow, i),
        i + 1 < fast.len() && trend_up(fast, slow, i) != trend_up(fast, slow, i + 1) ==> in_up_run(
            fast,
            slow,
            i,
        ) && in_down_run(fast, slow, i),
{
}

/// A chart shows the most recent points, at most `LOOKBACK` of them, and
/// all points where there are no more than that.
pub proof fn lemma_window_size(len: nat)
    ensures
        window_start(len) <= len,
        len - window_start(len) <= LOOKBACK,
        len <= LOOKBACK ==> window_start(len) == 0,
        len > 0 ==> window_start(len) < len,
{
}

} // verus!

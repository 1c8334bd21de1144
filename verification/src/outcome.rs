//! What one symbol's task can end in.

use vstd::prelude::*;
use crate::signal::Signal;

verus! {

/// Why a price series could not be had.
#[derive(Clone, Copy, Debug, PartialEq, Eq, Structural)]
pub enum FetchError {
    /// The source could not be reached or did not answer.
    Network,
    /// The source refused the credentials.
    Auth,
    /// The answer could not be read as a price series.
    Parse,
}

/// Why no chart was drawn.
#[derive(Clone, Copy, Debug, PartialEq, Eq, Structural)]
pub enum RenderError {
    /// The image could not be produced.
    Encoding,
    /// The series handed over differ in length.
    LengthMismatch,
    /// There is no price to draw.
    EmptyInput,
}

/// Why a scan could not begin.
#[derive(Clone, Copy, Debug, PartialEq, Eq, Structural)]
pub enum EngineError {
    /// The symbols to scan could not be had.
    SymbolsUnavailable,
}

/// The step of a task that failed.
#[derive(Clone, Copy, Debug, PartialEq, Eq, Structural)]
pub enum ErrorKind {
    Fetch(FetchError),
    Render(RenderError),
}

/// A symbol with an actionable signal and the chart drawn for it.
///
/// Every value holds at least one byte of chart and a signal that is a cross.
#[derive(Debug, PartialEq, Eq)]
pub struct Hit {
    symbol: String,
    signal: Signal,
    artifact: Vec<u8>,
}

impl Hit {
    #[verifier::type_invariant]
    spec fn inv(self) -> bool {
        self.artifact@.len() > 0 && self.signal.actionable()
    }

    /// The symbol's text.
    pub closed spec fn symbol_view(self) -> Seq<char> {
        self.symbol@
    }

    /// The signal found.
    pub closed spec fn signal_view(self) -> Signal {
        self.signal
    }

    /// The chart's bytes.
    pub closed spec fn artifact_view(self) -> Seq<u8> {
        self.artifact@
    }

    /// A hit, where the signal is a cross and the chart is not empty.
    pub fn new(symbol: String, signal: Signal, artifact: Vec<u8>) -> (hit: Option<Hit>)
        ensures
            hit is Some <==> signal.actionable() && artifact@.len() > 0,
            hit is Some ==> hit.unwrap().symbol_view() == symbol@ && hit.unwrap().signal_view()
                == signal && hit.unwrap().artifact_view() == artifact@,
    {
        if signal.is_actionable() && artifact.len() > 0 {
            Some(Hit { symbol, signal, artifact })
        } else {
            None
        }
    }

    /// The symbol's text.
    pub fn symbol(&self) -> (s: &str)
        ensures
            s@ == self.symbol_view(),
    {
        self.symbol.as_str()
    }

    /// The signal found, always a cross.
    pub fn signal(&self) -> (s: Signal)
        ensures
            s == self.signal_view(),
            s.actionable(),
    {
        proof {
            use_type_invariant(self);
        }
        self.signal
    }

    /// The chart's bytes, never empty.
    pub fn artifact(&self) -> (bytes: &Vec<u8>)
        ensures
            bytes@ == self.artifact_view(),
            bytes@.len() > 0,
    {
        proof {
            use_type_invariant(self);
        }
        &self.artifact
    }

    /// Takes the hit apart into symbol, signal and chart.
    pub fn into_parts(self) -> (parts: (String, Signal, Vec<u8>))
        ensures
            parts.0@ == self.symbol_view(),
            parts.1 == self.signal_view(),
            parts.2@ == self.artifact_view(),
            parts.1.actionable(),
            parts.2@.len() > 0,
    {
        proof {
            use_type_invariant(&self);
        }
        (self.symbol, self.signal, self.artifact)
    }
}

/// The one result that each submitted symbol ends in.
#[derive(Debug, PartialEq, Eq)]
pub enum ScanResult {
    /// Nothing to report: no prices, or no cross.
    Skipped,
    /// A cross, with its chart.
    Hit(Hit),
    /// The task failed at the step named.
    Failed { symbol: String, error: ErrorKind },
}

/// The counts of a scan that has ended.
#[derive(Clone, Copy, Debug, PartialEq, Eq, Structural)]
pub struct ScanSummary {
    /// Symbols the scan was started with.
    pub submitted: usize,
    /// Results that were hits.
    pub hits: usize,
    /// Results that were failures.
    pub failures: usize,
}

/// The hits among the results, in the order in which they came.
pub open spec fn hits_in(done: Seq<ScanResult>) -> Seq<Hit>
    decreases done.len(),
{
    if done.len() == 0 {
        Seq::empty()
    } else {
        let before = hits_in(done.drop_last());
        match done.last() {
            ScanResult::Hit(h) => before.push(h),
            _ => before,
        }
    }
}

/// The number of failures among the results.
pub open spec fn failures_in(done: Seq<ScanResult>) -> nat
    decreases done.len(),
{
    if done.len() == 0 {
        0
    } else {
        failures_in(done.drop_last()) + if done.last() is Failed {
            1nat
        } else {
            0nat
        }
    }
}

/// The number of skipped symbols among the results.
pub open spec fn skips_in(done: Seq<ScanResult>) -> nat
    decreases done.len(),
{
    if done.len() == 0 {
        0
    } else {
        skips_in(done.drop_last()) + if done.last() is Skipped {
            1nat
        } else {
            0nat
        }
    }
}

/// Every result is a hit, a failure or a skip, and counted once.
pub proof fn lemma_results_partition(done: Seq<ScanResult>)
    ensures
        hits_in(done).len() + failures_in(done) + skips_in(done) == done.len(),
    decreases done.len(),
{
    if done.len() > 0 {
        lemma_results_partition(done.drop_last());
    }
}

/// What one more result adds to the hits and to the counts.
pub proof fn lemma_result_added(done: Seq<ScanResult>, result: ScanResult)
    ensures
        hits_in(done.push(result)) == (match result {
            ScanResult::Hit(h) => hits_in(done).push(h),
            _ => hits_in(done),
        }),
        failures_in(done.push(result)) == failures_in(done) + if result is Failed {
            1nat
        } else {
            0nat
        },
        skips_in(done.push(result)) == skips_in(done) + if result is Skipped {
            1nat
        } else {
            0nat
        },
{
    assert(done.push(result).drop_last() =~= done);
}

} // verus!

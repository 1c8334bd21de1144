//! The steps of one symbol's task: fetch, evaluate, render, emit.
//!
//! A task is a value that passes through three stages, each a type of its
//! own. The caller does the work of a stage and reports how it went; the
//! task then either moves on to the next stage or ends in its one result.
//! A stage can only be reached through the one before it, so the steps
//! cannot be taken out of order, and no task ends twice.

use vstd::prelude::*;
use vstd::string::StringExecFns;
use crate::outcome::{ErrorKind, FetchError, Hit, RenderError, ScanResult};
use crate::signal::Signal;

verus! {

/// What a task does after a stage.
#[derive(Debug, PartialEq, Eq)]
pub enum Step<T> {
    /// Go on with the next stage.
    Continue(T),
    /// End the task in this result.
    Emit(ScanResult),
}

/// Whether `result` is the failure of `symbol` at the step `error`.
pub open spec fn is_failure_of(result: ScanResult, symbol: Seq<char>, error: ErrorKind) -> bool {
    match result {
        ScanResult::Failed { symbol: s, error: e } => s@ == symbol && e == error,
        _ => false,
    }
}

/// Whether `result` is the hit of `symbol` with this signal and chart.
pub open spec fn is_hit_of(
    result: ScanResult,
    symbol: Seq<char>,
    signal: Signal,
    artifact: Seq<u8>,
) -> bool {
    match result {
        ScanResult::Hit(h) => h.symbol_view() == symbol && h.signal_view() == signal
            && h.artifact_view() == artifact,
        _ => false,
    }
}

/// A task that waits for the prices of its symbol.
#[derive(Debug, PartialEq, Eq)]
pub struct Fetching {
    symbol: String,
}

/// A task whose prices are there and wait to be evaluated.
#[derive(Debug, PartialEq, Eq)]
pub struct Evaluating {
    symbol: String,
}

/// A task whose signal is a cross and whose chart is being drawn.
#[derive(Debug, PartialEq, Eq)]
pub struct Rendering {
    symbol: String,
    signal: Signal,
}

impl Fetching {
    /// The symbol's text.
    pub closed spec fn symbol_view(self) -> Seq<char> {
        self.symbol@
    }

    /// The task of a symbol, before anything was fetched.
    pub fn new(symbol: String) -> (task: Fetching)
        ensures
            task.symbol_view() == symbol@,
    {
        Fetching { symbol }
    }

    /// The symbol's text.
    pub fn symbol(&self) -> (s: &str)
        ensures
            s@ == self.symbol_view(),
    {
        self.symbol.as_str()
    }

    /// After the fetch: a failed fetch ends the task as a failure, an empty
    /// series ends it as skipped, and any other series is evaluated.
    /// `outcome` is the number of points fetched, or why there are none.
    pub fn fetched(self, outcome: Result<usize, FetchError>) -> (step: Step<Evaluating>)
        ensures
            match outcome {
                Err(e) => step matches Step::Emit(r) && is_failure_of(
                    r,
                    self.symbol_view(),
                    ErrorKind::Fetch(e),
                ),
                Ok(points) => if points == 0 {
                    step matches Step::Emit(r) && r == ScanResult::Skipped
                } else {
                    step matches Step::Continue(next) && next.symbol_view() == self.symbol_view()
                },
            },
    {
        match outcome {
            Err(e) => Step::Emit(
                ScanResult::Failed { symbol: self.symbol, error: ErrorKind::Fetch(e) },
            ),
            Ok(points) => {
                if points == 0 {
                    Step::Emit(ScanResult::Skipped)
                } else {
                    Step::Continue(Evaluating { symbol: self.symbol })
                }
            },
        }
    }
}

impl Evaluating {
    /// The symbol's text.
    pub closed spec fn symbol_view(self) -> Seq<char> {
        self.symbol@
    }

    /// The symbol's text.
    pub fn symbol(&self) -> (s: &str)
        ensures
            s@ == self.symbol_view(),
    {
        self.symbol.as_str()
    }

    /// After the evaluation: a cross is rendered, anything else is skipped.
    pub fn evaluated(self, signal: Signal) -> (step: Step<Rendering>)
        ensures
            if signal.actionable() {
                step matches Step::Continue(next) && next.symbol_view() == self.symbol_view()
                    && next.signal_view() == signal
            } else {
                step matches Step::Emit(r) && r == ScanResult::Skipped
            },
    {
        if signal.is_actionable() {
            Step::Continue(Rendering { symbol: self.symbol, signal })
        } else {
            Step::Emit(ScanResult::Skipped)
        }
    }
}

impl Rendering {
    #[verifier::type_invariant]
    spec fn inv(self) -> bool {
        self.signal.actionable()
    }

    /// The symbol's text.
    pub closed spec fn symbol_view(self) -> Seq<char> {
        self.symbol@
    }

    /// The signal that was found.
    pub closed spec fn signal_view(self) -> Signal {
        self.signal
    }

    /// The symbol's text.
    pub fn symbol(&self) -> (s: &str)
        ensures
            s@ == self.symbol_view(),
    {
        self.symbol.as_str()
    }

    /// The signal that was found, always a cross.
    pub fn signal(&self) -> (s: Signal)
        ensures
            s == self.signal_view(),
            s.actionable(),
    {
        proof {
            use_type_invariant(self);
        }
        self.signal
    }

    /// After the rendering: the result in which the task ends. A chart with
    /// at least one byte makes a hit; a renderer's error, or a chart without
    /// bytes, makes a failure.
    pub fn rendered(self, outcome: Result<Vec<u8>, RenderError>) -> (result: ScanResult)
        ensures
            match outcome {
                Ok(bytes) => if bytes@.len() > 0 {
                    is_hit_of(result, self.symbol_view(), self.signal_view(), bytes@)
                } else {
                    is_failure_of(
                        result,
                        self.symbol_view(),
                        ErrorKind::Render(RenderError::Encoding),
                    )
                },
                Err(e) => is_failure_of(result, self.symbol_view(), ErrorKind::Render(e)),
            },
    {
        proof {
            use_type_invariant(&self);
        }
        match outcome {
            Ok(bytes) => {
                if bytes.len() > 0 {
                    match Hit::new(self.symbol, self.signal, bytes) {
                        Some(hit) => ScanResult::Hit(hit),
                        None => ScanResult::Skipped,
                    }
                } else {
                    ScanResult::Failed {
                        symbol: self.symbol,
                        error: ErrorKind::Render(RenderError::Encoding),
                    }
                }
            },
            Err(e) => ScanResult::Failed { symbol: self.symbol, error: ErrorKind::Render(e) },
        }
    }
}

} // verus!

//! The scan over a captured set of symbols: a limit on how many symbol
//! tasks run at once, in front of the sink that takes their results.
//!
//! The caller runs the tasks. It asks [`Scan::dispatch`] for the next task
//! whenever one may start, reports each result with [`Scan::complete`] in
//! the order in which the tasks end, delivers every batch it is handed, and
//! calls [`Scan::finish`] once every symbol has its result.

use vstd::prelude::*;
use crate::outcome::{failures_in, hits_in};
use crate::outcome::{EngineError, Hit, ScanResult, ScanSummary};
use crate::sink::{filled_batch, fills_batch, flushes_in, open_batch};
use crate::sink::{Closing, Sink, BATCH_CAP};
use crate::task::Fetching;

verus! {

/// The number of tasks that the scans of this crate's callers run at once.
pub const DEFAULT_CONCURRENCY: usize = 8;

/// A scan as its contracts see it.
pub struct ScanView {
    /// The symbols the scan was started with, in the order in which they
    /// are handed out.
    pub symbols: Seq<String>,
    /// The most tasks that may run at once.
    pub limit: nat,
    /// How many symbols were handed out to tasks.
    pub dispatched: nat,
    /// How many tasks are running.
    pub in_flight: nat,
    /// The results reported so far, in the order in which they came.
    pub done: Seq<ScanResult>,
}

impl ScanView {
    /// What holds of every scan: no more tasks run than the limit allows,
    /// and every task that was handed out is either running or has its one
    /// result.
    pub open spec fn wf(self) -> bool {
        &&& self.limit >= 1
        &&& self.dispatched <= self.symbols.len()
        &&& self.in_flight <= self.limit
        &&& self.done.len() + self.in_flight == self.dispatched
    }

    /// Whether a further task may start now.
    pub open spec fn can_dispatch(self) -> bool {
        self.in_flight < self.limit && self.dispatched < self.symbols.len()
    }

    /// Whether every symbol has its result.
    pub open spec fn is_done(self) -> bool {
        self.dispatched == self.symbols.len() && self.in_flight == 0
    }
}

/// A running scan.
pub struct Scan {
    symbols: Vec<String>,
    limit: usize,
    dispatched: usize,
    in_flight: usize,
    sink: Sink,
}

impl View for Scan {
    type V = ScanView;

    closed spec fn view(&self) -> ScanView {
        ScanView {
            symbols: self.symbols@,
            limit: self.limit as nat,
            dispatched: self.dispatched as nat,
            in_flight: self.in_flight as nat,
            done: self.sink@,
        }
    }
}

impl Scan {
    /// The sink agrees with the results reported.
    pub closed spec fn counted(&self) -> bool {
        self.sink.wf()
    }

    /// The scan is in a state that its own operations can reach.
    pub open spec fn wf(&self) -> bool {
        self@.wf() && self.counted()
    }

    /// A scan over `symbols` that runs at most `limit` tasks at once.
    pub fn new(symbols: Vec<String>, limit: usize) -> (scan: Scan)
        requires
            limit >= 1,
        ensures
            scan.wf(),
            scan@ == (ScanView {
                symbols: symbols@,
                limit: limit as nat,
                dispatched: 0,
                in_flight: 0,
                done: Seq::empty(),
            }),
    {
        Scan { symbols, limit, dispatched: 0, in_flight: 0, sink: Sink::new() }
    }

    /// Begins a scan over the symbols listed. Without symbols there is no
    /// scan: that is the one failure that ends a scan as a whole.
    pub fn begin(listing: Option<Vec<String>>, limit: usize) -> (scan: Result<Scan, EngineError>)
        requires
            limit >= 1,
        ensures
            match listing {
                Some(symbols) => scan matches Ok(s) && s.wf() && s@ == (ScanView {
                    symbols: symbols@,
                    limit: limit as nat,
                    dispatched: 0,
                    in_flight: 0,
                    done: Seq::empty(),
                }),
                None => scan matches Err(e) && e == EngineError::SymbolsUnavailable,
            },
    {
        match listing {
            Some(symbols) => Ok(Scan::new(symbols, limit)),
            None => Err(EngineError::SymbolsUnavailable),
        }
    }

    /// Hands out the task of the next symbol if one may start now, and
    /// counts it as running.
    pub fn dispatch(&mut self) -> (next: Option<Fetching>)
        requires
            old(self).wf(),
        ensures
            final(self).wf(),
            next is Some <==> old(self)@.can_dispatch(),
            next matches Some(task) ==> task.symbol_view() == old(self)@.symbols[old(
                self,
            )@.dispatched as int]@ && final(self)@ == (ScanView {
                dispatched: old(self)@.dispatched + 1,
                in_flight: old(self)@.in_flight + 1,
                ..old(self)@
            }),
            next is None ==> final(self)@ == old(self)@,
    {
        if self.in_flight < self.limit && self.dispatched < self.symbols.len() {
            let symbol = self.symbols[self.dispatched].clone();
            self.dispatched = self.dispatched + 1;
            self.in_flight = self.in_flight + 1;
            Some(Fetching::new(symbol))
        } else {
            None
        }
    }

    /// Takes the result of a task that has ended. Where the result is a hit
    /// that fills the open batch, that batch is handed out for delivery and a
    /// new one begins.
    pub fn complete(&mut self, result: ScanResult) -> (flush: Option<Vec<Hit>>)
        requires
            old(self).wf(),
            old(self)@.in_flight > 0,
        ensures
            final(self).wf(),
            final(self)@ == (ScanView {
                in_flight: (old(self)@.in_flight - 1) as nat,
                done: old(self)@.done.push(result),
                ..old(self)@
            }),
            flush is Some <==> fills_batch(final(self)@.done),
            flush is Some ==> flush.unwrap()@ == filled_batch(hits_in(final(self)@.done))
                && flush.unwrap()@.len() == BATCH_CAP,
    {
        self.in_flight = self.in_flight - 1;
        self.sink.accept(result)
    }

    /// Ends a scan in which every symbol has its result: what is left to
    /// deliver, and the counts.
    pub fn finish(self) -> (end: (Closing, ScanSummary))
        requires
            self.wf(),
            self@.is_done(),
        ensures
            self@.done.len() == self@.symbols.len(),
            end.1.submitted == self@.symbols.len(),
            end.1.hits == hits_in(self@.done).len(),
            end.1.failures == failures_in(self@.done),
            match end.0 {
                Closing::Remainder(batch) => batch@ == open_batch(hits_in(self@.done)) && 0
                    < batch@.len() < BATCH_CAP,
                Closing::NoSignals => hits_in(self@.done).len() == 0,
                Closing::Delivered => hits_in(self@.done).len() > 0 && open_batch(
                    hits_in(self@.done),
                ).len() == 0,
            },
    {
        let summary = ScanSummary {
            submitted: self.symbols.len(),
            hits: self.sink.hits(),
            failures: self.sink.failures(),
        };
        (self.sink.close(), summary)
    }

    /// Whether a further task may start now.
    pub fn can_dispatch(&self) -> (b: bool)
        ensures
            b == self@.can_dispatch(),
    {
        self.in_flight < self.limit && self.dispatched < self.symbols.len()
    }

    /// Whether every symbol has its result.
    pub fn is_done(&self) -> (b: bool)
        ensures
            b == self@.is_done(),
    {
        self.dispatched == self.symbols.len() && self.in_flight == 0
    }

    /// The number of symbols the scan was started with.
    pub fn submitted(&self) -> (n: usize)
        ensures
            n == self@.symbols.len(),
    {
        self.symbols.len()
    }

    /// The most tasks that may run at once.
    pub fn limit(&self) -> (n: usize)
        ensures
            n == self@.limit,
    {
        self.limit
    }

    /// The number of tasks that are running.
    pub fn in_flight(&self) -> (n: usize)
        ensures
            n == self@.in_flight,
    {
        self.in_flight
    }

    /// The number of results reported so far.
    pub fn processed(&self) -> (n: usize)
        requires
            self.wf(),
        ensures
            n == self@.done.len(),
    {
        self.sink.taken()
    }

    /// The number of hits among the results so far.
    pub fn hits(&self) -> (n: usize)
        requires
            self.wf(),
        ensures
            n == hits_in(self@.done).len(),
    {
        self.sink.hits()
    }

    /// The number of failures among the results so far.
    pub fn failures(&self) -> (n: usize)
        requires
            self.wf(),
        ensures
            n == failures_in(self@.done),
    {
        self.sink.failures()
    }

    /// The number of batches handed out so far.
    pub fn batches_flushed(&self) -> (n: usize)
        requires
            self.wf(),
        ensures
            n == flushes_in(self@.done),
            n == hits_in(self@.done).len() / (BATCH_CAP as nat),
    {
        self.sink.batches_flushed()
    }

    /// The number of hits that wait in the open batch.
    pub fn pending(&self) -> (n: usize)
        requires
            self.wf(),
        ensures
            n == open_batch(hits_in(self@.done)).len(),
            n == hits_in(self@.done).len() % (BATCH_CAP as nat),
            n < BATCH_CAP,
    {
        self.sink.pending()
    }
}

/// Once a scan is done it has as many results as it was started with
/// symbols: one for each task, and a task for each symbol.
pub proof fn lemma_results_match_symbols(scan: ScanView)
    requires
        scan.wf(),
        scan.is_done(),
    ensures
        scan.done.len() == scan.symbols.len(),
{
}

/// At no time do more tasks run than the limit allows, and a task may start
/// only while fewer run.
pub proof fn lemma_never_over_limit(scan: ScanView)
    requires
        scan.wf(),
    ensures
        scan.in_flight <= scan.limit,
        scan.can_dispatch() ==> scan.in_flight + 1 <= scan.limit,
{
}

/// A scan never stalls: until it is done, a task is running or one may start.
pub proof fn lemma_scan_progresses(scan: ScanView)
    requires
        scan.wf(),
        !scan.is_done(),
    ensures
        scan.in_flight > 0 || scan.can_dispatch(),
{
}

} // verus!

//! The sink of a scan: it takes the results in the order in which they
//! come, counts them, and groups the hits into batches of bounded size. A
//! batch leaves the sink the moment it is full, and is not touched again.

use vstd::prelude::*;
use crate::outcome::{failures_in, hits_in, lemma_result_added, lemma_results_partition};
use crate::outcome::{Hit, ScanResult};

verus! {

/// The most hits that one delivery can carry.
pub const BATCH_CAP: usize = 10;

/// Where the batch that is still open begins, among `hits` hits.
pub open spec fn open_from(hits: nat) -> nat {
    (hits - hits % (BATCH_CAP as nat)) as nat
}

/// The hits that wait in the open batch.
pub open spec fn open_batch(hits: Seq<Hit>) -> Seq<Hit> {
    hits.subrange(open_from(hits.len()) as int, hits.len() as int)
}

/// The batch that the last hit filled: the most recent hits, as many as
/// the cap.
pub open spec fn filled_batch(hits: Seq<Hit>) -> Seq<Hit>
    recommends
        hits.len() >= BATCH_CAP,
{
    hits.subrange(hits.len() - BATCH_CAP, hits.len() as int)
}

/// The `k`-th run of hits that fills a batch.
pub open spec fn run_of(hits: Seq<Hit>, k: int) -> Seq<Hit> {
    hits.subrange(k * BATCH_CAP, (k + 1) * BATCH_CAP)
}

/// Whether the last of the results is a hit that fills a batch.
pub open spec fn fills_batch(done: Seq<ScanResult>) -> bool {
    done.len() > 0 && done.last() is Hit && hits_in(done).len() % (BATCH_CAP as nat) == 0
}

/// The number of batches that were filled while the results came in.
pub open spec fn flushes_in(done: Seq<ScanResult>) -> nat
    decreases done.len(),
{
    if done.len() == 0 {
        0
    } else {
        flushes_in(done.drop_last()) + if fills_batch(done) {
            1nat
        } else {
            0nat
        }
    }
}

/// How a scan ends, after the batches that were filled on the way.
#[derive(Debug, PartialEq, Eq)]
pub enum Closing {
    /// The hits that did not fill a batch: at least one, fewer than the cap.
    Remainder(Vec<Hit>),
    /// There was no hit at all.
    NoSignals,
    /// Every hit has left in a full batch.
    Delivered,
}

/// A sink, which holds the batch that is still open.
pub struct Sink {
    batch: Vec<Hit>,
    taken: usize,
    hits: usize,
    failures: usize,
    flushed: usize,
    done: Ghost<Seq<ScanResult>>,
}

impl View for Sink {
    type V = Seq<ScanResult>;

    /// The results taken so far, in the order in which they came.
    closed spec fn view(&self) -> Seq<ScanResult> {
        self.done@
    }
}

impl Sink {
    /// The counters and the open batch agree with the results taken.
    pub closed spec fn wf(&self) -> bool {
        &&& self.taken == self.done@.len()
        &&& self.hits == hits_in(self.done@).len()
        &&& self.failures == failures_in(self.done@)
        &&& self.flushed == flushes_in(self.done@)
        &&& self.batch@ == open_batch(hits_in(self.done@))
    }

    /// A sink that has taken nothing.
    pub fn new() -> (sink: Sink)
        ensures
            sink.wf(),
            sink@ == Seq::<ScanResult>::empty(),
    {
        let sink = Sink {
            batch: Vec::new(),
            taken: 0,
            hits: 0,
            failures: 0,
            flushed: 0,
            done: Ghost(Seq::empty()),
        };
        assert(sink.batch@ =~= open_batch(hits_in(sink.done@)));
        sink
    }

    /// Takes one result. Where it is a hit that fills the open batch, that
    /// batch is handed out for delivery and a new one begins.
    pub fn accept(&mut self, result: ScanResult) -> (flush: Option<Vec<Hit>>)
        requires
            old(self).wf(),
            old(self)@.len() < usize::MAX,
        ensures
            final(self).wf(),
            final(self)@ == old(self)@.push(result),
            flush is Some <==> fills_batch(final(self)@),
            flush is Some ==> flush.unwrap()@ == filled_batch(hits_in(final(self)@))
                && flush.unwrap()@.len() == BATCH_CAP,
    {
        let ghost before = self.done@;
        let ghost after = before.push(result);
        proof {
            lemma_result_added(before, result);
            lemma_results_partition(after);
            lemma_batches_by_hits(before);
            assert(after.drop_last() =~= before);
        }
        self.taken = self.taken + 1;
        self.done = Ghost(after);
        match result {
            ScanResult::Hit(hit) => {
                let ghost hits = hits_in(before);
                self.hits = self.hits + 1;
                self.batch.push(hit);
                if self.batch.len() == BATCH_CAP {
                    self.flushed = self.flushed + 1;
                    let mut full: Vec<Hit> = Vec::new();
                    std::mem::swap(&mut self.batch, &mut full);
                    assert(full@ =~= filled_batch(hits.push(hit)));
                    assert(self.batch@ =~= open_batch(hits.push(hit)));
                    Some(full)
                } else {
                    assert(self.batch@ =~= open_batch(hits.push(hit)));
                    None
                }
            },
            ScanResult::Failed { .. } => {
                self.failures = self.failures + 1;
                None
            },
            ScanResult::Skipped => None,
        }
    }

    /// Closes the sink: what is left to deliver after the batches that were
    /// filled on the way.
    pub fn close(self) -> (closing: Closing)
        requires
            self.wf(),
        ensures
            match closing {
                Closing::Remainder(batch) => batch@ == open_batch(hits_in(self@)) && 0
                    < batch@.len() < BATCH_CAP,
                Closing::NoSignals => hits_in(self@).len() == 0,
                Closing::Delivered => hits_in(self@).len() > 0 && open_batch(hits_in(self@)).len()
                    == 0,
            },
    {
        proof {
            lemma_batches_by_hits(self@);
        }
        if self.batch.len() > 0 {
            Closing::Remainder(self.batch)
        } else if self.hits == 0 {
            Closing::NoSignals
        } else {
            Closing::Delivered
        }
    }

    /// The number of results taken.
    pub fn taken(&self) -> (n: usize)
        requires
            self.wf(),
        ensures
            n == self@.len(),
    {
        self.taken
    }

    /// The number of hits among the results taken.
    pub fn hits(&self) -> (n: usize)
        requires
            self.wf(),
        ensures
            n == hits_in(self@).len(),
    {
        self.hits
    }

    /// The number of failures among the results taken.
    pub fn failures(&self) -> (n: usize)
        requires
            self.wf(),
        ensures
            n == failures_in(self@),
    {
        self.failures
    }

    /// The number of batches handed out.
    pub fn batches_flushed(&self) -> (n: usize)
        requires
            self.wf(),
        ensures
            n == flushes_in(self@),
            n == hits_in(self@).len() / (BATCH_CAP as nat),
    {
        proof {
            lemma_batches_by_hits(self@);
        }
        self.flushed
    }

    /// The number of hits that wait in the open batch.
    pub fn pending(&self) -> (n: usize)
        requires
            self.wf(),
        ensures
            n == open_batch(hits_in(self@)).len(),
            n == hits_in(self@).len() % (BATCH_CAP as nat),
            n < BATCH_CAP,
    {
        self.batch.len()
    }
}

/// What the results of a whole scan are delivered as.
#[derive(Debug, PartialEq, Eq)]
pub struct Delivery {
    /// The batches that were filled, in the order in which they left.
    pub batches: Vec<Vec<Hit>>,
    /// What was left at the end.
    pub closing: Closing,
    /// The number of hits.
    pub hits: usize,
    /// The number of failures.
    pub failures: usize,
}

impl Delivery {
    /// Whether this is how `done` is delivered: a batch for each full run of
    /// hits in the order in which they came, and what is left at the end.
    pub open spec fn delivers(self, done: Seq<ScanResult>) -> bool {
        let hits = hits_in(done);
        &&& self.hits == hits.len()
        &&& self.failures == failures_in(done)
        &&& self.batches@.len() == hits.len() / (BATCH_CAP as nat)
        &&& forall|k: int|
            0 <= k < self.batches@.len() ==> (#[trigger] self.batches@[k])@ == run_of(hits, k)
        &&& match self.closing {
            Closing::Remainder(batch) => batch@ == open_batch(hits) && batch@.len() == hits.len()
                % (BATCH_CAP as nat) && batch@.len() > 0,
            Closing::NoSignals => hits.len() == 0,
            Closing::Delivered => hits.len() > 0 && hits.len() % (BATCH_CAP as nat) == 0,
        }
    }
}

/// Delivers the results of a whole scan, given in the order in which they
/// came.
pub fn drain(results: Vec<ScanResult>) -> (delivery: Delivery)
    ensures
        delivery.delivers(results@),
{
    let mut sink = Sink::new();
    let mut batches: Vec<Vec<Hit>> = Vec::new();
    let ghost all = results@;
    let total: usize = results.len();
    assert(all.subrange(0, 0) =~= Seq::<ScanResult>::empty());
    for result in it: results.into_iter()
        invariant
            it.seq() == all,
            all.len() == total,
            sink.wf(),
            sink@ == all.subrange(0, it.index()),
            batches@.len() == flushes_in(sink@),
            forall|k: int|
                0 <= k < batches@.len() ==> (#[trigger] batches@[k])@ == run_of(hits_in(sink@), k),
    {
        let ghost before = sink@;
        let ghost filled = batches@;
        proof {
            lemma_result_added(before, result);
            lemma_batches_by_hits(before);
            lemma_batches_by_hits(before.push(result));
            assert(before.push(result) =~= all.subrange(0, it.index() + 1));
            assert(before.push(result).drop_last() =~= before);
            assert forall|k: int| 0 <= k < filled.len() implies run_of(
                hits_in(before.push(result)),
                k,
            ) == run_of(hits_in(before), k) by {
                assert(run_of(hits_in(before.push(result)), k) =~= run_of(hits_in(before), k));
            }
        }
        match sink.accept(result) {
            Some(batch) => {
                assert(batch@ =~= run_of(hits_in(sink@), filled.len() as int));
                batches.push(batch);
            },
            None => {},
        }
    }
    proof {
        assert(all.subrange(0, all.len() as int) =~= all);
        lemma_batches_by_hits(all);
    }
    let hits = sink.hits();
    let failures = sink.failures();
    let closing = sink.close();
    Delivery { batches, closing, hits, failures }
}

/// Among results with `H` hits and a cap of `C`, the batches filled number
/// `H / C`, each filled batch holds exactly `C` hits, and the open batch
/// holds the `H % C` hits that came last, so it is never full.
pub proof fn lemma_batches_by_hits(done: Seq<ScanResult>)
    ensures
        flushes_in(done) == hits_in(done).len() / (BATCH_CAP as nat),
        open_batch(hits_in(done)).len() == hits_in(done).len() % (BATCH_CAP as nat),
        open_batch(hits_in(done)).len() < BATCH_CAP,
        fills_batch(done) ==> filled_batch(hits_in(done)).len() == BATCH_CAP,
    decreases done.len(),
{
    if done.len() > 0 {
        lemma_batches_by_hits(done.drop_last());
        lemma_result_added(done.drop_last(), done.last());
        assert(done.drop_last().push(done.last()) =~= done);
    }
}

/// The filled batches and the open batch hold every hit, and none twice:
/// as many as the cap for each batch filled, and the rest in the open one.
pub proof fn lemma_batches_cover_hits(done: Seq<ScanResult>)
    ensures
        flushes_in(done) * BATCH_CAP + open_batch(hits_in(done)).len() == hits_in(done).len(),
        open_from(hits_in(done).len()) == flushes_in(done) * BATCH_CAP,
{
    lemma_batches_by_hits(done);
}

/// A scan without a hit fills no batch and leaves nothing in the open one:
/// all that it reports is that there was no signal.
pub proof fn lemma_no_hits_no_batches(done: Seq<ScanResult>)
    requires
        hits_in(done).len() == 0,
    ensures
        flushes_in(done) == 0,
        open_batch(hits_in(done)).len() == 0,
{
    lemma_batches_by_hits(done);
}

/// The hits among the first results are the first of the hits among all:
/// later results add hits at the end and change none.
pub proof fn lemma_hits_of_prefix(done: Seq<ScanResult>, all: Seq<ScanResult>)
    requires
        done.len() <= all.len(),
        done == all.subrange(0, done.len() as int),
    ensures
        hits_in(done).len() <= hits_in(all).len(),
        hits_in(done) == hits_in(all).subrange(0, hits_in(done).len() as int),
    decreases all.len() - done.len(),
{
    if done.len() == all.len() {
        assert(all.subrange(0, all.len() as int) =~= all);
        assert(hits_in(all).subrange(0, hits_in(all).len() as int) =~= hits_in(all));
    } else {
        let next = done.push(all[done.len() as int]);
        assert(next =~= all.subrange(0, (done.len() + 1) as int));
        lemma_hits_of_prefix(next, all);
        lemma_result_added(done, all[done.len() as int]);
        assert(hits_in(done) =~= hits_in(next).subrange(0, hits_in(done).len() as int));
        assert(hits_in(done) =~= hits_in(all).subrange(0, hits_in(done).len() as int));
    }
}

/// Batches follow the order in which the hits came: the batch that is filled
/// when `done` results are in, the `k`-th of the scan, holds the `k`-th run
/// of hits among all the results of the scan.
pub proof fn lemma_filled_batch_is_run(done: Seq<ScanResult>, all: Seq<ScanResult>)
    requires
        done.len() <= all.len(),
        done == all.subrange(0, done.len() as int),
        fills_batch(done),
    ensures
        flushes_in(done) >= 1,
        flushes_in(done) * BATCH_CAP <= hits_in(all).len(),
        filled_batch(hits_in(done)) == run_of(hits_in(all), flushes_in(done) - 1),
{
    lemma_batches_by_hits(done);
    lemma_hits_of_prefix(done, all);
    lemma_result_added(done.drop_last(), done.last());
    assert(done.drop_last().push(done.last()) =~= done);
    assert(filled_batch(hits_in(done)) =~= run_of(hits_in(all), flushes_in(done) - 1));
}

} // verus!

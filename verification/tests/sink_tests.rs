use stock_scan::outcome::{ErrorKind, FetchError, Hit, ScanResult};
use stock_scan::signal::Signal;
use stock_scan::sink::{drain, Closing, Delivery, Sink};

fn hit_of(symbol: &str) -> Hit {
    Hit::new(symbol.to_string(), Signal::Sell, vec![9]).unwrap()
}

fn hits(from: usize, to: usize) -> Vec<Hit> {
    (from..to).map(|i| hit_of(&format!("H{}", i))).collect()
}

fn results(n: usize) -> Vec<ScanResult> {
    (0..n).map(|i| ScanResult::Hit(hit_of(&format!("H{}", i)))).collect()
}

fn failure() -> ScanResult {
    ScanResult::Failed { symbol: "X".to_string(), error: ErrorKind::Fetch(FetchError::Auth) }
}

#[test]
fn drain_of_nothing() {
    assert_eq!(
        drain(Vec::new()),
        Delivery { batches: Vec::new(), closing: Closing::NoSignals, hits: 0, failures: 0 }
    );
}

#[test]
fn drain_of_twenty_three_hits() {
    assert_eq!(
        drain(results(23)),
        Delivery {
            batches: vec![hits(0, 10), hits(10, 20)],
            closing: Closing::Remainder(hits(20, 23)),
            hits: 23,
            failures: 0,
        }
    );
}

#[test]
fn drain_of_twenty_hits() {
    assert_eq!(
        drain(results(20)),
        Delivery {
            batches: vec![hits(0, 10), hits(10, 20)],
            closing: Closing::Delivered,
            hits: 20,
            failures: 0,
        }
    );
}

#[test]
fn drain_skips_what_is_no_hit() {
    let mut mixed = Vec::new();
    for i in 0..11 {
        mixed.push(ScanResult::Skipped);
        mixed.push(ScanResult::Hit(hit_of(&format!("H{}", i))));
        mixed.push(failure());
    }
    assert_eq!(
        drain(mixed),
        Delivery {
            batches: vec![hits(0, 10)],
            closing: Closing::Remainder(hits(10, 11)),
            hits: 11,
            failures: 11,
        }
    );
}

#[test]
fn drain_without_hits_reports_no_signals() {
    assert_eq!(
        drain(vec![ScanResult::Skipped, failure(), ScanResult::Skipped]),
        Delivery { batches: Vec::new(), closing: Closing::NoSignals, hits: 0, failures: 1 }
    );
}

#[test]
fn drain_counts_for_every_number_of_hits() {
    for h in 0usize..=45 {
        let delivery = drain(results(h));
        assert_eq!(delivery.batches.len(), h / 10);
        assert!(delivery.batches.iter().all(|b| b.len() == 10));
        match delivery.closing {
            Closing::Remainder(rest) => assert_eq!((rest.len(), h % 10 > 0), (h % 10, true)),
            Closing::NoSignals => assert_eq!(h, 0),
            Closing::Delivered => assert!(h > 0 && h % 10 == 0),
        }
    }
}

#[test]
fn sink_hands_out_a_batch_when_it_is_full() {
    let mut sink = Sink::new();
    for i in 0..9 {
        assert_eq!(sink.accept(ScanResult::Hit(hit_of(&format!("H{}", i)))), None);
    }
    assert_eq!(sink.accept(failure()), None);
    assert_eq!((sink.taken(), sink.hits(), sink.failures()), (10, 9, 1));
    assert_eq!((sink.pending(), sink.batches_flushed()), (9, 0));
    assert_eq!(sink.accept(ScanResult::Hit(hit_of("H9"))), Some(hits(0, 10)));
    assert_eq!((sink.pending(), sink.batches_flushed()), (0, 1));
    assert_eq!(sink.close(), Closing::Delivered);
}

#[test]
fn sink_closes_with_what_is_left() {
    let mut sink = Sink::new();
    assert_eq!(sink.accept(ScanResult::Hit(hit_of("H0"))), None);
    assert_eq!(sink.close(), Closing::Remainder(hits(0, 1)));
    assert_eq!(Sink::new().close(), Closing::NoSignals);
}

//! Price series: what is asked of the price source, and what is read from
//! the points it returns.

use vstd::prelude::*;
use vstd::string::{StrSliceExecFns, StringExecFns};
use crate::outcome::FetchError;
use crate::text::{decimal, decimal_string};
use crate::timeframe::Timeframe;

verus! {

/// How far back a scan asks for prices, in days.
pub const LOOKBACK_DAYS: i64 = 300;

/// The most points that a scan asks for.
pub const MAX_POINTS: usize = 365;

/// Seconds in a day.
pub const DAY_SECS: i64 = 86_400;

/// One bar of a price series. The time is in seconds since the start of
/// 1970 in UTC; the prices are on the crate's integer scale.
#[derive(Clone, Copy, Debug, PartialEq, Eq, Structural)]
pub struct PricePoint {
    pub timestamp: i64,
    pub open: i64,
    pub high: i64,
    pub low: i64,
    pub close: i64,
    pub volume: i64,
}

/// The closing prices of a series, in order.
pub open spec fn closes_of(points: Seq<PricePoint>) -> Seq<i64> {
    Seq::new(points.len(), |i: int| points[i].close)
}

/// The closing prices of a series, in order.
pub fn closes(points: &Vec<PricePoint>) -> (out: Vec<i64>)
    ensures
        out@ == closes_of(points@),
{
    let mut out: Vec<i64> = Vec::new();
    let mut i: usize = 0;
    while i < points.len()
        invariant
            i <= points@.len(),
            out@.len() == i,
            forall|k: int| 0 <= k < i ==> out@[k] == points@[k].close,
        decreases points@.len() - i,
    {
        out.push(points[i].close);
        i = i + 1;
    }
    assert(out@ =~= closes_of(points@));
    out
}

/// The calendar date in UTC of a time in seconds since the start of 1970,
/// as year, month and day with hyphens between them; `None` for a time
/// beyond the calendar.
pub uninterp spec fn date_text(secs: int) -> Option<Seq<char>>;

/// Calls chrono's `DateTime::from_timestamp` and, on the instant it gives,
/// `format` with `%Y-%m-%d`. The date is a function of the seconds alone:
/// the contract gives it the name `date_text`, with `None` where
/// `from_timestamp` has no instant for these seconds, and says nothing of
/// what it holds.
#[verifier::external_body]
pub(crate) fn date_of(secs: i64) -> (date: Option<String>)
    ensures
        match date {
            Some(d) => date_text(secs as int) == Some(d@),
            None => date_text(secs as int) is None,
        },
{
    match chrono::DateTime::from_timestamp(secs, 0) {
        Some(at) => Some(at.format("%Y-%m-%d").to_string()),
        None => None,
    }
}

/// The instant of a time in seconds and nanoseconds since the start of
/// 1970, written as RFC 3339 asks in UTC; `None` for a time beyond the
/// calendar or nanoseconds that make no instant.
pub uninterp spec fn instant_text(secs: int, nanos: int) -> Option<Seq<char>>;

/// Calls chrono's `DateTime::from_timestamp` and, on the instant it gives,
/// `to_rfc3339`. The text is a function of the two numbers alone: the
/// contract gives it the name `instant_text`, with `None` where
/// `from_timestamp` has no instant for them, and says nothing of what it
/// holds.
#[verifier::external_body]
pub(crate) fn instant_of(secs: i64, nanos: u32) -> (text: Option<String>)
    ensures
        match text {
            Some(t) => instant_text(secs as int, nanos as int) == Some(t@),
            None => instant_text(secs as int, nanos as int) is None,
        },
{
    match chrono::DateTime::from_timestamp(secs, nanos) {
        Some(at) => Some(at.to_rfc3339()),
        None => None,
    }
}

/// The date under which a point is shown.
pub fn date_label(point: &PricePoint) -> (label: Option<String>)
    ensures
        match label {
            Some(l) => date_text(point.timestamp as int) == Some(l@),
            None => date_text(point.timestamp as int) is None,
        },
{
    date_of(point.timestamp)
}

/// The texts of a list in which none is missing, or `None` where one is.
pub fn all_or_none(items: Vec<Option<String>>) -> (all: Option<Vec<String>>)
    ensures
        all is Some <==> forall|i: int| 0 <= i < items@.len() ==> #[trigger] items@[i] is Some,
        all matches Some(a) ==> a@.len() == items@.len() && forall|i: int|
            0 <= i < items@.len() ==> #[trigger] items@[i] == Some(a@[i]),
{
    let mut all: Vec<String> = Vec::new();
    let mut i: usize = 0;
    while i < items.len()
        invariant
            i <= items@.len(),
            all@.len() == i,
            forall|k: int| 0 <= k < i ==> #[trigger] items@[k] == Some(all@[k]),
        decreases items@.len() - i,
    {
        match &items[i] {
            Some(item) => {
                all.push(item.clone());
            },
            None => {
                assert(items@[i as int] is None);
                return None;
            },
        }
        i = i + 1;
    }
    Some(all)
}

/// The dates of a series, one for each point in order, or `None` where
/// a point has no date.
pub fn date_labels(points: &Vec<PricePoint>) -> (labels: Option<Vec<String>>)
    ensures
        labels is Some <==> forall|i: int|
            0 <= i < points@.len() ==> date_text(#[trigger] points@[i].timestamp as int) is Some,
        labels matches Some(l) ==> l@.len() == points@.len() && forall|i: int|
            0 <= i < points@.len() ==> date_text(#[trigger] points@[i].timestamp as int) == Some(
                l@[i]@,
            ),
{
    let mut dates: Vec<Option<String>> = Vec::new();
    let mut i: usize = 0;
    while i < points.len()
        invariant
            i <= points@.len(),
            dates@.len() == i,
            forall|k: int|
                0 <= k < i ==> match #[trigger] dates@[k] {
                    Some(d) => date_text(points@[k].timestamp as int) == Some(d@),
                    None => date_text(points@[k].timestamp as int) is None,
                },
        decreases points@.len() - i,
    {
        dates.push(date_of(points[i].timestamp));
        i = i + 1;
    }
    let labels = all_or_none(dates);
    proof {
        if labels is Some {
            assert forall|k: int| 0 <= k < points@.len() implies date_text(
                #[trigger] points@[k].timestamp as int,
            ) == Some(labels.unwrap()@[k]@) by {
                assert(dates@[k] == Some(labels.unwrap()@[k]));
            }
        } else {
            let k = choose|k: int| 0 <= k < dates@.len() && !(#[trigger] dates@[k] is Some);
            assert(date_text(points@[k].timestamp as int) is None);
        }
    }
    labels
}

/// The span of time that a request covers.
#[derive(Debug, PartialEq, Eq)]
pub struct Span {
    /// The first instant, written as RFC 3339 asks.
    pub start: String,
    /// The last instant, written as RFC 3339 asks.
    pub end: String,
}

/// The span between two instants, where both are there.
pub fn span_of(start: Option<String>, end: Option<String>) -> (span: Option<Span>)
    ensures
        span is Some <==> start is Some && end is Some,
        span matches Some(s) ==> Some(s.start) == start && Some(s.end) == end,
{
    match (start, end) {
        (Some(start), Some(end)) => Some(Span { start, end }),
        _ => None,
    }
}

/// Where a span of `days` days that ends at `secs` begins, in seconds, or
/// `None` where that is no `i64`.
pub open spec fn start_secs(secs: i64, days: i64) -> Option<int> {
    if i64::MIN <= days * DAY_SECS <= i64::MAX && i64::MIN <= secs - days * DAY_SECS <= i64::MAX {
        Some(secs - days * DAY_SECS)
    } else {
        None
    }
}

/// The span of `days` days that ends at the instant given in seconds and
/// nanoseconds since the start of 1970. There is none where the start
/// cannot be computed, or the start or the end lies beyond the calendar.
pub fn span_until(secs: i64, nanos: u32, days: i64) -> (span: Option<Span>)
    ensures
        span is Some <==> start_secs(secs, days) is Some && instant_text(
            start_secs(secs, days).unwrap(),
            nanos as int,
        ) is Some && instant_text(secs as int, nanos as int) is Some,
        span matches Some(s) ==> instant_text(start_secs(secs, days).unwrap(), nanos as int)
            == Some(s.start@) && instant_text(secs as int, nanos as int) == Some(s.end@),
{
    let back: i64 = match days.checked_mul(DAY_SECS) {
        Some(b) => b,
        None => {
            return None;
        },
    };
    let from: i64 = match secs.checked_sub(back) {
        Some(f) => f,
        None => {
            return None;
        },
    };
    let start = instant_of(from, nanos);
    let end = instant_of(secs, nanos);
    span_of(start, end)
}

/// A text without the `c`s at its end.
pub open spec fn without_trailing(text: Seq<char>, c: char) -> Seq<char>
    decreases text.len(),
{
    if text.len() > 0 && text.last() == c {
        without_trailing(text.drop_last(), c)
    } else {
        text
    }
}

/// What is left is the start of the text and does not end in `c`, and all
/// that was taken off is `c`.
pub proof fn lemma_without_trailing(text: Seq<char>, c: char)
    ensures
        without_trailing(text, c).len() <= text.len(),
        without_trailing(text, c) == text.subrange(0, without_trailing(text, c).len() as int),
        without_trailing(text, c).len() > 0 ==> without_trailing(text, c).last() != c,
        forall|i: int| without_trailing(text, c).len() <= i < text.len() ==> text[i] == c,
    decreases text.len(),
{
    if text.len() > 0 && text.last() == c {
        lemma_without_trailing(text.drop_last(), c);
        let n = without_trailing(text, c).len() as int;
        assert(text.drop_last().subrange(0, n) =~= text.subrange(0, n));
        assert forall|i: int| n <= i < text.len() implies text[i] == c by {
            if i < text.len() - 1 {
                assert(text[i] == text.drop_last()[i]);
            }
        }
    } else {
        assert(text.subrange(0, text.len() as int) =~= text);
    }
}

/// Takes the `c`s off the end of a text.
pub fn strip_trailing(text: &str, c: char) -> (out: &str)
    ensures
        out@ == without_trailing(text@, c),
{
    let mut end: usize = text.unicode_len();
    assert(text@.subrange(0, end as int) =~= text@);
    while end > 0 && text.get_char(end - 1) == c
        invariant
            end <= text@.len(),
            without_trailing(text@, c) == without_trailing(text@.subrange(0, end as int), c),
        decreases end,
    {
        assert(text@.subrange(0, end as int).drop_last() =~= text@.subrange(0, end - 1));
        end = end - 1;
    }
    text.substring_char(0, end)
}

/// The address of the bars of a symbol, below the address of the source.
pub fn bars_url(base: &str, symbol: &str) -> (url: String)
    ensures
        url@ == without_trailing(base@, '/') + "/v2/stocks/"@ + symbol@ + "/bars"@,
{
    String::from_str(strip_trailing(base, '/')).concat("/v2/stocks/").concat(symbol).concat(
        "/bars",
    )
}

/// One parameter of a request.
#[derive(Debug, PartialEq, Eq)]
pub struct Param {
    pub name: &'static str,
    pub value: String,
}

/// The parameters with which bars are asked for: the feed, the timeframe,
/// the span and the most points wanted, in this order.
pub fn bars_query(timeframe: Timeframe, span: &Span, limit: usize) -> (query: Vec<Param>)
    ensures
        query@.len() == 5,
        query@[0].name@ == "feed"@ && query@[0].value@ == "iex"@,
        query@[1].name@ == "timeframe"@ && query@[1].value@ == timeframe.label(),
        query@[2].name@ == "start"@ && query@[2].value@ == span.start@,
        query@[3].name@ == "end"@ && query@[3].value@ == span.end@,
        query@[4].name@ == "limit"@ && query@[4].value@ == decimal(limit as nat),
{
    let mut query: Vec<Param> = Vec::new();
    query.push(Param { name: "feed", value: String::from_str("iex") });
    query.push(Param { name: "timeframe", value: String::from_str(timeframe.as_str()) });
    query.push(Param { name: "start", value: span.start.clone() });
    query.push(Param { name: "end", value: span.end.clone() });
    query.push(Param { name: "limit", value: decimal_string(limit as u64) });
    query
}

/// Why a request failed, from what is known of the failure: a status that
/// refuses the credentials is `Auth`; otherwise an answer that arrived but
/// could not be read is `Parse`; anything else is `Network`.
pub fn fetch_error(status: Option<u16>, unreadable: bool) -> (error: FetchError)
    ensures
        error == if status == Some(401u16) || status == Some(403u16) {
            FetchError::Auth
        } else if unreadable {
            FetchError::Parse
        } else {
            FetchError::Network
        },
{
    let refused: bool = match status {
        Some(code) => code == 401 || code == 403,
        None => false,
    };
    if refused {
        FetchError::Auth
    } else if unreadable {
        FetchError::Parse
    } else {
        FetchError::Network
    }
}

} // verus!

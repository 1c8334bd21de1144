use stock_scan::store::{changed, counted, pending, pending_del_key, watchlist_key};
use stock_scan::store::PENDING_TTL_SECS;
use stock_scan::symbol::{keep_nonempty, normalize, normalize_all, parse_symbols};
use stock_scan::symbol::{space_marks, trim, trim_where};
use stock_scan::text::{decimal_string, join, same_text, strip_prefix, take_before};
use stock_scan::timeframe::Timeframe;

fn strings(items: &[&str]) -> Vec<String> {
    items.iter().map(|s| s.to_string()).collect()
}

#[test]
fn timeframe_labels() {
    assert_eq!(Timeframe::Minute1.as_str(), "1Min");
    assert_eq!(Timeframe::Minute5.as_str(), "5Min");
    assert_eq!(Timeframe::Minute15.as_str(), "15Min");
    assert_eq!(Timeframe::Minute30.as_str(), "30Min");
    assert_eq!(Timeframe::Hour1.as_str(), "1Hour");
    assert_eq!(Timeframe::Day1.as_str(), "1Day");
    assert_eq!(Timeframe::Week1.as_str(), "1Week");
    assert_eq!(Timeframe::Month1.as_str(), "1Month");
}

#[test]
fn normalize_trims_and_raises() {
    assert_eq!(normalize("  tsla\n"), "TSLA");
    assert_eq!(normalize("msft"), "MSFT");
    assert_eq!(normalize("AAPL"), "AAPL");
    assert_eq!(normalize(" \t "), "");
    assert_eq!(normalize("brk.b"), "BRK.B");
}

#[test]
fn normalize_keeps_inner_space() {
    assert_eq!(normalize(" a b "), "A B");
}

#[test]
fn normalize_all_keeps_order_and_length() {
    assert_eq!(normalize_all(&strings(&[" a", "b ", ""])), strings(&["A", "B", ""]));
}

#[test]
fn parse_symbols_splits_at_commas() {
    assert_eq!(parse_symbols("tsla,msft"), strings(&["TSLA", "MSFT"]));
}

#[test]
fn parse_symbols_drops_empty_fields() {
    assert_eq!(parse_symbols(" tsla, msft ,,aapl ,"), strings(&["TSLA", "MSFT", "AAPL"]));
    assert_eq!(parse_symbols(""), Vec::<String>::new());
    assert_eq!(parse_symbols(" , ,"), Vec::<String>::new());
}

#[test]
fn parse_symbols_keeps_repeats_and_order() {
    assert_eq!(parse_symbols("b,a,b"), strings(&["B", "A", "B"]));
}

#[test]
fn parse_symbols_reads_beyond_ascii() {
    assert_eq!(parse_symbols("é,x"), strings(&["É", "X"]));
}

#[test]
fn keep_nonempty_skips_the_empty() {
    let mut list = strings(&["A"]);
    keep_nonempty(&mut list, String::new());
    keep_nonempty(&mut list, "B".to_string());
    assert_eq!(list, strings(&["A", "B"]));
}

#[test]
fn join_puts_the_separator_between() {
    assert_eq!(join(&strings(&["A", "B", "C"]), ", "), "A, B, C");
    assert_eq!(join(&strings(&["A"]), ", "), "A");
    assert_eq!(join(&Vec::new(), ", "), "");
    assert_eq!(join(&strings(&["", ""]), "-"), "-");
}

#[test]
fn decimal_of_numbers() {
    assert_eq!(decimal_string(0), "0");
    assert_eq!(decimal_string(9), "9");
    assert_eq!(decimal_string(10), "10");
    assert_eq!(decimal_string(1234567890), "1234567890");
    assert_eq!(decimal_string(u64::MAX), "18446744073709551615");
}

#[test]
fn same_text_compares_by_characters() {
    assert!(same_text("", ""));
    assert!(same_text("abc", "abc"));
    assert!(!same_text("abc", "abd"));
    assert!(!same_text("abc", "ab"));
    assert!(same_text("héllo", "héllo"));
}

#[test]
fn strip_prefix_takes_the_front_off() {
    assert_eq!(strip_prefix("confirm_del_1-2", "confirm_del_"), Some("1-2"));
    assert_eq!(strip_prefix("confirm_del_", "confirm_del_"), Some(""));
    assert_eq!(strip_prefix("confirm", "confirm_del_"), None);
    assert_eq!(strip_prefix("xconfirm_del_", "confirm_del_"), None);
    assert_eq!(strip_prefix("abc", ""), Some("abc"));
}

#[test]
fn take_before_stops_at_the_first() {
    assert_eq!(take_before("42-17-3", '-'), "42");
    assert_eq!(take_before("42", '-'), "42");
    assert_eq!(take_before("-42", '-'), "");
    assert_eq!(take_before("", '-'), "");
}

#[test]
fn store_keys() {
    assert_eq!(watchlist_key("bot"), "bot:watchlist");
    assert_eq!(pending_del_key("bot", "42-17"), "bot:pending_del:42-17");
    assert_eq!(PENDING_TTL_SECS, 300);
}

#[test]
fn store_answers() {
    assert!(changed(1));
    assert!(!changed(0));
    assert!(!changed(2));
    assert_eq!(counted(0), Some(0));
    assert_eq!(counted(12), Some(12));
    assert_eq!(counted(-1), None);
    assert_eq!(pending(Vec::new()), None);
    assert_eq!(pending(strings(&["A"])), Some(strings(&["A"])));
}

#[test]
fn trim_takes_white_space_off_both_ends() {
    assert_eq!(trim("  a b \t\n"), "a b");
    assert_eq!(trim("a"), "a");
    assert_eq!(trim(""), "");
    assert_eq!(trim(" \t\r\n"), "");
    assert_eq!(trim("\u{3000}x\u{2003}"), "x");
}

#[test]
fn trim_agrees_with_the_standard_library() {
    for text in ["", " ", "a", " a", "a ", " a b ", "\n\ta\u{a0}", "\u{feff}a", "é ", " 日本 "] {
        assert_eq!(trim(text), text.trim());
    }
}

#[test]
fn space_marks_of_a_text() {
    assert_eq!(space_marks(" a\tb\n"), vec![true, false, true, false, true]);
    assert_eq!(space_marks(""), Vec::<bool>::new());
    assert_eq!(space_marks("\u{3000}é"), vec![true, false]);
}

#[test]
fn trim_where_takes_marked_ends_off() {
    assert_eq!(trim_where("abcde", &vec![true, true, false, false, true]), "cd");
    assert_eq!(trim_where("abcde", &vec![false, true, true, true, false]), "abcde");
    assert_eq!(trim_where("abcde", &vec![true, false, true, false, true]), "bcd");
    assert_eq!(trim_where("abc", &vec![true, true, true]), "");
    assert_eq!(trim_where("abc", &vec![false, false, false]), "abc");
    assert_eq!(trim_where("", &Vec::new()), "");
}

use stock_scan::signal::{classify, Signal, FAST_PERIOD, SLOW_PERIOD};

#[test]
fn empty_series_is_undetermined() {
    assert_eq!(classify(&[], &[]), Signal::Undetermined);
}

#[test]
fn single_point_is_undetermined() {
    assert_eq!(classify(&[5], &[1]), Signal::Undetermined);
}

#[test]
fn short_slow_series_is_undetermined() {
    assert_eq!(classify(&[1, 2, 3], &[1]), Signal::Undetermined);
}

#[test]
fn upward_cross_is_buy() {
    assert_eq!(classify(&[1, 1, 3], &[2, 2, 2]), Signal::Buy);
}

#[test]
fn downward_cross_is_sell() {
    assert_eq!(classify(&[3, 3, 1], &[2, 2, 2]), Signal::Sell);
}

#[test]
fn cross_from_equal_is_buy_or_sell() {
    assert_eq!(classify(&[2, 3], &[2, 2]), Signal::Buy);
    assert_eq!(classify(&[2, 1], &[2, 2]), Signal::Sell);
}

#[test]
fn above_without_cross_is_bullish() {
    assert_eq!(classify(&[3, 4], &[2, 2]), Signal::BullishBias);
}

#[test]
fn below_without_cross_is_bearish() {
    assert_eq!(classify(&[1, 1], &[2, 2]), Signal::BearishBias);
}

#[test]
fn equal_at_the_end_is_bearish() {
    assert_eq!(classify(&[3, 2], &[2, 2]), Signal::BearishBias);
    assert_eq!(classify(&[2, 2], &[2, 2]), Signal::BearishBias);
}

#[test]
fn only_the_last_two_points_count() {
    assert_eq!(classify(&[9, 9, 9, 1, 3], &[0, 0, 0, 2, 2]), Signal::Buy);
}

#[test]
fn extreme_values_compare_without_overflow() {
    assert_eq!(classify(&[i64::MIN, i64::MAX], &[i64::MAX, i64::MIN]), Signal::Buy);
    assert_eq!(classify(&[i64::MAX, i64::MIN], &[i64::MIN, i64::MAX]), Signal::Sell);
}

#[test]
fn only_crosses_are_actionable() {
    assert!(Signal::Buy.is_actionable());
    assert!(Signal::Sell.is_actionable());
    assert!(!Signal::BullishBias.is_actionable());
    assert!(!Signal::BearishBias.is_actionable());
    assert!(!Signal::Undetermined.is_actionable());
}

#[test]
fn signal_names() {
    assert_eq!(Signal::Buy.name(), "Buy");
    assert_eq!(Signal::Sell.name(), "Sell");
    assert_eq!(Signal::BullishBias.name(), "BullishBias");
    assert_eq!(Signal::BearishBias.name(), "BearishBias");
    assert_eq!(Signal::Undetermined.name(), "Undetermined");
}

#[test]
fn signal_colors() {
    assert_eq!(Signal::Buy.scan_color(), 0x00FF00);
    assert_eq!(Signal::Sell.scan_color(), 0xFF0000);
    assert_eq!(Signal::BullishBias.scan_color(), 0x808080);
    assert_eq!(Signal::Buy.chart_color(), 0x00FF00);
    assert_eq!(Signal::BullishBias.chart_color(), 0x00FF00);
    assert_eq!(Signal::Sell.chart_color(), 0xFF0000);
    assert_eq!(Signal::BearishBias.chart_color(), 0xFF0000);
    assert_eq!(Signal::Undetermined.chart_color(), 0xFFFFFF);
}

#[test]
fn average_periods() {
    assert_eq!(FAST_PERIOD, 12);
    assert_eq!(SLOW_PERIOD, 26);
}

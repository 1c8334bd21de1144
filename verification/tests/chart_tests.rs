use stock_scan::chart::{plan_chart, ChartPlan, HEIGHT, LOOKBACK, WIDTH};
use stock_scan::outcome::RenderError;

fn dates(n: usize) -> Vec<String> {
    (0..n).map(|i| format!("2024-01-{:02}", i + 1)).collect()
}

#[test]
fn mismatched_dates_are_refused() {
    let prices = [1, 2, 3, 4, 5];
    assert_eq!(plan_chart(&prices, &prices, &prices, &dates(4)), Err(RenderError::LengthMismatch));
}

#[test]
fn mismatched_averages_are_refused() {
    let prices = [1, 2, 3, 4, 5];
    assert_eq!(
        plan_chart(&prices, &prices[..4], &prices, &dates(5)),
        Err(RenderError::LengthMismatch)
    );
    assert_eq!(
        plan_chart(&prices, &prices, &[1, 2, 3, 4, 5, 6], &dates(5)),
        Err(RenderError::LengthMismatch)
    );
}

#[test]
fn empty_prices_are_refused() {
    assert_eq!(plan_chart(&[], &[], &[], &[]), Err(RenderError::EmptyInput));
}

#[test]
fn empty_prices_come_before_mismatch() {
    assert_eq!(plan_chart(&[], &[1], &[1], &dates(1)), Err(RenderError::EmptyInput));
}

#[test]
fn trend_change_is_drawn_in_both_colours() {
    let plan = plan_chart(&[10, 20, 30, 40], &[1, 3, 3, 1], &[2, 2, 2, 2], &dates(4)).unwrap();
    assert_eq!(
        plan,
        ChartPlan {
            start: 0,
            up: vec![Some(10), Some(20), Some(30), None],
            down: vec![Some(10), None, Some(30), Some(40)],
            last: 40,
        }
    );
}

#[test]
fn steady_rise_is_one_colour() {
    let plan = plan_chart(&[10, 20, 30], &[5, 5, 5], &[1, 1, 1], &dates(3)).unwrap();
    assert_eq!(plan.up, vec![Some(10), Some(20), Some(30)]);
    assert_eq!(plan.down, vec![None, None, None]);
}

#[test]
fn equal_averages_count_as_falling() {
    let plan = plan_chart(&[10, 20], &[1, 1], &[1, 1], &dates(2)).unwrap();
    assert_eq!(plan.up, vec![None, None]);
    assert_eq!(plan.down, vec![Some(10), Some(20)]);
}

#[test]
fn single_point_is_drawn() {
    let plan = plan_chart(&[7], &[2], &[1], &dates(1)).unwrap();
    assert_eq!(plan, ChartPlan { start: 0, up: vec![Some(7)], down: vec![None], last: 7 });
}

#[test]
fn only_the_latest_ninety_points_are_shown() {
    let prices: Vec<i64> = (0..100).collect();
    let fast: Vec<i64> = vec![2; 100];
    let slow: Vec<i64> = vec![1; 100];
    let plan = plan_chart(&prices, &fast, &slow, &dates(100)).unwrap();
    assert_eq!(plan.start, 10);
    assert_eq!(plan.up.len(), 90);
    assert_eq!(plan.down.len(), 90);
    assert_eq!(plan.up[0], Some(10));
    assert_eq!(plan.up[89], Some(99));
    assert_eq!(plan.last, 99);
}

#[test]
fn ninety_points_are_all_shown() {
    let prices: Vec<i64> = (0..90).collect();
    let plan = plan_chart(&prices, &prices, &prices, &dates(90)).unwrap();
    assert_eq!(plan.start, 0);
    assert_eq!(plan.down.len(), 90);
}

#[test]
fn change_before_the_window_is_not_drawn() {
    let prices: Vec<i64> = (0..91).collect();
    let mut fast: Vec<i64> = vec![2; 91];
    fast[0] = 0;
    let slow: Vec<i64> = vec![1; 91];
    let plan = plan_chart(&prices, &fast, &slow, &dates(91)).unwrap();
    assert_eq!(plan.start, 1);
    assert!(plan.down.iter().all(|p| p.is_none()));
    assert!(plan.up.iter().all(|p| p.is_some()));
}

#[test]
fn chart_dimensions() {
    assert_eq!((LOOKBACK, WIDTH, HEIGHT), (90, 1200, 600));
}

use stock_scan::card::{chart_card, scan_card, Card};
use stock_scan::config::Config;
use stock_scan::confirm::{confirm, confirm_id, menu_size, open_request, report_line};
use stock_scan::confirm::{request_id, route, Component, Confirmed, Prompt};
use stock_scan::confirm::{CANCEL_ID, CONFIRM_PREFIX, MENU_CAP, SELECT_ID};
use stock_scan::signal::Signal;

fn strings(items: &[&str]) -> Vec<String> {
    items.iter().map(|s| s.to_string()).collect()
}

#[test]
fn menu_offers_at_most_twenty_five() {
    assert_eq!(menu_size(0), 0);
    assert_eq!(menu_size(3), 3);
    assert_eq!(menu_size(25), 25);
    assert_eq!(menu_size(26), 25);
    assert_eq!(menu_size(usize::MAX), 25);
    assert_eq!(MENU_CAP, 25);
}

#[test]
fn request_names_owner_and_time() {
    assert_eq!(request_id(42, 1700000000), "42-1700000000");
    assert_eq!(request_id(0, 0), "0-0");
    assert_eq!(confirm_id("42-17"), "confirm_del_42-17");
}

#[test]
fn component_identifiers() {
    assert_eq!(SELECT_ID, "select_delete");
    assert_eq!(CANCEL_ID, "cancel_del");
    assert_eq!(CONFIRM_PREFIX, "confirm_del_");
}

#[test]
fn route_knows_select_and_cancel() {
    assert_eq!(route("select_delete", 1), Component::Select);
    assert_eq!(route("cancel_del", 1), Component::Cancel);
}

#[test]
fn route_lets_the_owner_confirm() {
    assert_eq!(
        route("confirm_del_42-1700000000", 42),
        Component::Confirm("42-1700000000".to_string())
    );
}

#[test]
fn route_denies_anyone_else() {
    assert_eq!(route("confirm_del_42-1700000000", 7), Component::Denied);
    assert_eq!(route("confirm_del_42-1700000000", 4), Component::Denied);
    assert_eq!(route("confirm_del_42-1700000000", 421), Component::Denied);
    assert_eq!(route("confirm_del_", 0), Component::Denied);
    assert_eq!(route("confirm_del_042-1", 42), Component::Denied);
}

#[test]
fn route_ignores_other_components() {
    assert_eq!(route("", 1), Component::Ignored);
    assert_eq!(route("select", 1), Component::Ignored);
    assert_eq!(route("confirm_del", 1), Component::Ignored);
    assert_eq!(route("something_else", 1), Component::Ignored);
}

#[test]
fn route_follows_the_request_it_made() {
    let request = request_id(9000, 123);
    assert_eq!(route(&confirm_id(&request), 9000), Component::Confirm(request));
}

#[test]
fn open_request_asks_the_question() {
    assert_eq!(
        open_request(42, 17, &strings(&["TSLA", "MSFT"])),
        Some(Prompt {
            request: "42-17".to_string(),
            confirm: "confirm_del_42-17".to_string(),
            message: "Are you sure you want to delete **2** symbols?\n> TSLA, MSFT".to_string(),
        })
    );
}

#[test]
fn open_request_needs_a_selection() {
    assert_eq!(open_request(42, 17, &Vec::new()), None);
}

#[test]
fn confirm_of_nothing_kept_is_expired() {
    assert_eq!(confirm(None), Confirmed::Expired);
}

#[test]
fn confirm_removes_what_is_kept() {
    assert_eq!(
        confirm(Some(strings(&["A", "B"]))),
        Confirmed::Remove {
            symbols: strings(&["A", "B"]),
            message: "A, B was deleted.".to_string(),
        }
    );
}

#[test]
fn report_line_lists_symbols() {
    assert_eq!(
        report_line("Now watching: ", &strings(&["A", "B"])),
        Some("Now watching: A, B".to_string())
    );
    assert_eq!(report_line("Already watching: ", &Vec::new()), None);
}

#[test]
fn scan_card_of_a_buy() {
    assert_eq!(
        scan_card("tsla", Signal::Buy),
        Card {
            title: "TSLA Analysis".to_string(),
            description: "Current Signal: Buy".to_string(),
            color: 0x00FF00,
            filename: "tsla_chart.png".to_string(),
            image: "attachment://tsla_chart.png".to_string(),
        }
    );
}

#[test]
fn chart_card_of_a_bearish_bias() {
    let card = chart_card("MSFT", Signal::BearishBias);
    assert_eq!(card.title, "MSFT Analysis");
    assert_eq!(card.description, "Current Signal: BearishBias");
    assert_eq!(card.color, 0xFF0000);
    assert_eq!(scan_card("MSFT", Signal::BearishBias).color, 0x808080);
}

#[test]
fn compose_takes_the_title_as_given() {
    let card = Card::compose("x", "shout", Signal::Sell, 5);
    assert_eq!(card.title, "shout Analysis");
    assert_eq!(card.filename, "x_chart.png");
    assert_eq!(card.image, "attachment://x_chart.png");
    assert_eq!(card.color, 5);
}

#[test]
fn config_defaults_the_version() {
    let config = Config::new("token".to_string(), None);
    assert_eq!(config.discord_token, "token");
    assert_eq!(config.version, "Unknown");
    assert_eq!(config.version_line(), "Version - Unknown");
}

#[test]
fn config_shows_a_v_version_as_it_is() {
    let config = Config::new("token".to_string(), Some("v1.2.3".to_string()));
    assert_eq!(config.version_line(), "v1.2.3");
    let config = Config::new("token".to_string(), Some("1.2.3".to_string()));
    assert_eq!(config.version_line(), "Version - 1.2.3");
}

use ift611_project::client::{
    dummy_decision, parse_port, Action, Connection, DecisionLogs, Market, TradingPair,
    TradingStrategy,
};
use ift611_project::html::{get_custom_string, get_string, Path};
use ift611_project::text::{parse_u16, str_eq, u64_to_string};

#[test]
fn path_delimiters_are_interchangeable() {
    let sp0 = "~\\rust_projects\\ift611\\ift_611user\\";
    let sp1 = "~/rust_projects/ift611/ift_611user/";
    let p0 = Path::new(sp0);
    let p1 = Path::new(sp1);
    assert_eq!(p0, p1);
}

#[test]
fn path_renders_back_with_slashes() {
    let p = Path::new("~/rust_projects/ift611/ift_611user/");
    assert_eq!(p.to_string(), "~/rust_projects/ift611/ift_611user/");
}

#[test]
fn path_renders_with_a_custom_delimiter() {
    let p = Path::new("~/rust_projects/ift611/ift_611user/");
    assert_eq!(
        p.to_string_custom("\\"),
        "~\\rust_projects\\ift611\\ift_611user\\"
    );
}

#[test]
fn path_round_trips_mixed_delimiters() {
    let p = Path::new("a\\b/c");
    assert_eq!(p.to_string(), "a/b/c");
    assert_eq!(Path::new("").to_string(), "");
    assert_eq!(Path::new("/").to_string(), "/");
}

#[test]
fn get_string_is_the_root_request_line() {
    assert_eq!(get_string(), "GET / HTTP/1.1\r\n");
}

#[test]
fn get_custom_string_names_the_path() {
    let p = Path::new("~\\rust_projects\\ift611\\ift_611user");
    assert_eq!(
        get_custom_string(&p),
        "GET ~/rust_projects/ift611/ift_611user HTTP/1.1\r\n"
    );
}

#[test]
fn strategy_is_selected_by_name() {
    assert_eq!(
        TradingStrategy::from_name("dummy"),
        Some(TradingStrategy::Dummy)
    );
    assert_eq!(TradingStrategy::from_name("smart"), None);
    assert_eq!(TradingStrategy::from_name(""), None);
}

#[test]
fn dummy_decision_follows_the_threshold() {
    assert_eq!(dummy_decision(true, false), DecisionLogs::Buy);
    assert_eq!(dummy_decision(false, true), DecisionLogs::Sell);
    assert_eq!(dummy_decision(false, false), DecisionLogs::Wait);
}

#[test]
fn pair_and_market_names() {
    assert_eq!(TradingPair::BTCUSD.name(), "BTCUSD");
    assert_eq!(TradingPair::BTCUSD.query_path(), "/BTCUSD");
    assert_eq!(TradingPair::BTCUSD.subscribe_path(), "/subscribe/BTCUSD");
    assert_eq!(Market::BTCUSD.to_string(), "BTCUSD");
    assert_ne!(Action::Buy, Action::Sell);
}

#[test]
fn connection_starts_with_an_empty_buffer() {
    let c = Connection::new("the reader");
    assert_eq!(c.reader, "the reader");
    assert_eq!(c.buffer, "");
}

#[test]
fn ports_render_and_parse_back() {
    assert_eq!(u64_to_string(0), "0");
    assert_eq!(u64_to_string(8080), "8080");
    assert_eq!(u64_to_string(65535), "65535");
    for port in [0u16, 1, 80, 8080, 65535] {
        let s = u64_to_string(port as u64);
        assert_eq!(parse_u16(&s), Some(port));
    }
}

#[test]
fn port_parsing_refuses_what_is_no_port() {
    assert_eq!(parse_u16(""), None);
    assert_eq!(parse_u16("12a"), None);
    assert_eq!(parse_u16("-1"), None);
    assert_eq!(parse_u16(" 8080"), None);
    assert_eq!(parse_u16("65536"), None);
    assert_eq!(parse_u16("99999999999999999999"), None);
    assert_eq!(parse_u16("65535"), Some(65535));
}

#[test]
fn port_parsing_ignores_surrounding_whitespace() {
    assert_eq!(parse_port("8080"), Some(8080));
    assert_eq!(parse_port(" 8080 \r\n"), Some(8080));
    assert_eq!(parse_port("\t65535\n"), Some(65535));
    assert_eq!(parse_port("  "), None);
    assert_eq!(parse_port(" 80 80 "), None);
    assert_eq!(parse_port(" 65536 "), None);
}

#[test]
fn text_equality_is_by_characters() {
    assert!(str_eq("GET", "GET"));
    assert!(!str_eq("GET", "POST"));
    assert!(!str_eq("GET", "GE"));
}

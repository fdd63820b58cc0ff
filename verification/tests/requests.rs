//! Request building: routes, query pairs and form bodies, down to the exact
//! characters.

use tradier::account::{
    balances_path, history_path, history_query, orders_path, orders_query, positions_path,
    EventTypeEnum,
};
use tradier::market_data::{quotes_path, quotes_query, timesales_query, SessionFilter};
use tradier::trading::{order_delete_path, order_form};
use tradier::{bearer, endpoint, Class, Duration, OrderType, Side, TradierConfig};

fn config() -> TradierConfig {
    TradierConfig {
        token: "xxx".to_string(),
        endpoint: "https://api.example.com".to_string(),
    }
}

#[test]
fn test_endpoint_url() {
    let url = endpoint(&config(), balances_path("VA000000").as_str());
    assert_eq!(url, "https://api.example.com/v1/accounts/VA000000/balances");
}

#[test]
fn test_bearer_value() {
    assert_eq!(bearer("xxx"), "Bearer xxx");
}

#[test]
fn test_account_paths() {
    assert_eq!(balances_path("VA000000"), "accounts/VA000000/balances");
    assert_eq!(history_path("VA000000"), "accounts/VA000000/history");
    assert_eq!(orders_path("VA000000"), "accounts/VA000000/orders");
    assert_eq!(positions_path("VA000000"), "accounts/VA000000/positions");
}

#[test]
fn test_orders_query_include_tags() {
    let q = orders_query(false);
    assert_eq!(q, vec![("includeTags".to_string(), "false".to_string())]);
    let q = orders_query(true);
    assert_eq!(q, vec![("includeTags".to_string(), "true".to_string())]);
}

#[test]
fn test_quotes_path_joins_symbols() {
    let symbols = vec!["AAPL".to_string(), "VXX190517P00016000".to_string()];
    assert_eq!(quotes_path(&symbols), "markets/quotes?AAPL,VXX190517P00016000");
    assert_eq!(quotes_path(&vec!["SPY".to_string()]), "markets/quotes?SPY");
    assert_eq!(quotes_path(&Vec::new()), "markets/quotes?");
}

#[test]
fn test_quotes_query_defaults_greeks_off() {
    assert_eq!(
        quotes_query(None),
        vec![("greeks".to_string(), "false".to_string())]
    );
    assert_eq!(
        quotes_query(Some(true)),
        vec![("greeks".to_string(), "true".to_string())]
    );
}

#[test]
fn test_history_query_skips_absent_filters() {
    let q = history_query(None, None, None, None, None, None);
    assert!(q.is_empty());

    let q = history_query(
        Some(2),
        Some(50),
        Some(EventTypeEnum::trade),
        Some(1_628_812_800),
        Some(1_628_899_200),
        Some("AAPL".to_string()),
    );
    assert_eq!(
        q,
        vec![
            ("page".to_string(), "2".to_string()),
            ("limit".to_string(), "50".to_string()),
            ("activity_type".to_string(), "trade".to_string()),
            ("start".to_string(), "2021-08-13T00:00:00Z".to_string()),
            ("end".to_string(), "2021-08-14T00:00:00Z".to_string()),
            ("symbol".to_string(), "AAPL".to_string()),
        ]
    );
}

#[test]
fn test_timesales_query_renders_local_minutes() {
    // The window 2021-08-13T00:00Z to 2021-08-14T00:00Z reads, in
    // exchange-local daylight-saving time, as 20:00 the evening before.
    let q = timesales_query(
        "AAPL".to_string(),
        Some("1min".to_string()),
        Some(1_628_812_800),
        Some(1_628_899_200),
        None,
    );
    assert_eq!(
        q,
        vec![
            ("symbol".to_string(), "AAPL".to_string()),
            ("interval".to_string(), "1min".to_string()),
            ("start".to_string(), "2021-08-12 20:00".to_string()),
            ("end".to_string(), "2021-08-13 20:00".to_string()),
        ]
    );
}

#[test]
fn test_timesales_query_session_filter() {
    let q = timesales_query("SPY".to_string(), None, None, None, Some(SessionFilter::open));
    assert_eq!(
        q,
        vec![
            ("symbol".to_string(), "SPY".to_string()),
            ("session_filter".to_string(), "open".to_string()),
        ]
    );
}

#[test]
fn test_order_form_required_fields() {
    let f = order_form(
        Class::equity,
        "AAPL".to_string(),
        Side::buy,
        100,
        OrderType::market,
        Duration::gtc,
        None,
        None,
        None,
    );
    assert_eq!(
        f,
        vec![
            ("class".to_string(), "equity".to_string()),
            ("symbol".to_string(), "AAPL".to_string()),
            ("side".to_string(), "buy".to_string()),
            ("quantity".to_string(), "100".to_string()),
            ("type".to_string(), "market".to_string()),
            ("duration".to_string(), "gtc".to_string()),
        ]
    );
}

#[test]
fn test_order_form_optional_fields() {
    let f = order_form(
        Class::option,
        "VXX190517P00016000".to_string(),
        Side::sell_to_close,
        3,
        OrderType::limit,
        Duration::day,
        Some("1.25".to_string()),
        Some("1.10".to_string()),
        Some("mytag".to_string()),
    );
    assert_eq!(
        f,
        vec![
            ("class".to_string(), "option".to_string()),
            ("symbol".to_string(), "VXX190517P00016000".to_string()),
            ("side".to_string(), "sell_to_close".to_string()),
            ("quantity".to_string(), "3".to_string()),
            ("type".to_string(), "limit".to_string()),
            ("duration".to_string(), "day".to_string()),
            ("price".to_string(), "1.25".to_string()),
            ("stop".to_string(), "1.10".to_string()),
            ("tag".to_string(), "mytag".to_string()),
        ]
    );
}

#[test]
fn test_order_delete_path_renders_id() {
    assert_eq!(order_delete_path("VA000000", 1), "accounts/VA000000/orders/1");
    assert_eq!(order_delete_path("VA000000", 0), "accounts/VA000000/orders/0");
    assert_eq!(
        order_delete_path("VA000000", -37),
        "accounts/VA000000/orders/-37"
    );
}

//! Round trips over fixture responses: the request a call would send is
//! built by the library, and the fixture body a mocked endpoint would
//! return is decoded, mapped into the library's types, and normalized.

use tradier::account::{
    orders_query, orders_path, user_profile_normalize, Account, ProfileShape, SingleProfile,
};
use tradier::shape::{normalize_list, ListShape};
use tradier::{endpoint, AccountStatus, AccountType, Classification, TradierConfig};

fn parse_ts(s: &str) -> i64 {
    chrono::DateTime::parse_from_rfc3339(s).unwrap().timestamp()
}

fn account_from_json(v: &serde_json::Value) -> Account {
    Account {
        account_number: v["account_number"].as_str().unwrap().to_string(),
        classification: match v["classification"].as_str().unwrap() {
            "individual" => Classification::individual,
            "entity" => Classification::entity,
            other => panic!("unexpected classification {other}"),
        },
        date_created: parse_ts(v["date_created"].as_str().unwrap()),
        day_trader: v["day_trader"].as_bool().unwrap(),
        option_level: v["option_level"].as_u64().unwrap() as u8,
        status: match v["status"].as_str().unwrap() {
            "active" => AccountStatus::active,
            _ => AccountStatus::closed,
        },
        account_type: match v["type"].as_str().unwrap() {
            "margin" => AccountType::margin,
            _ => AccountType::cash,
        },
        last_update_date: parse_ts(v["last_update_date"].as_str().unwrap()),
    }
}

#[test]
fn test_get_user_profile_single_round_trip() {
    let fixture = "{\"profile\":{\"id\":\"id-sb-2r01lpprbg\",\"name\":\"Fake Jane\",\
        \"account\":{\"account_number\":\"VA000000\",\"classification\":\"individual\",\
        \"date_created\":\"2021-06-23T22:04:20.000Z\",\"day_trader\":false,\
        \"option_level\":6,\"status\":\"active\",\"type\":\"margin\",\
        \"last_update_date\":\"2021-06-23T22:04:20.000Z\"}}}";

    let config = TradierConfig {
        token: "xxx".to_string(),
        endpoint: "http://127.0.0.1:8080".to_string(),
    };
    let url = endpoint(&config, "user/profile");
    assert_eq!(url, "http://127.0.0.1:8080/v1/user/profile");

    let v: serde_json::Value = serde_json::from_str(fixture).unwrap();
    let profile_v = &v["profile"];
    // The account field arrived as a bare object, not an array.
    assert!(profile_v["account"].is_object());
    let shape = ProfileShape::One(SingleProfile {
        id: profile_v["id"].as_str().unwrap().to_string(),
        name: profile_v["name"].as_str().unwrap().to_string(),
        account: account_from_json(&profile_v["account"]),
    });
    let profile = user_profile_normalize(shape);
    assert_eq!(profile.profile.id, "id-sb-2r01lpprbg");
    assert_eq!(profile.profile.name, "Fake Jane");
    assert_eq!(profile.profile.account.len(), 1);
    let account = &profile.profile.account[0];
    assert_eq!(account.account_number, "VA000000");
    assert_eq!(account.option_level, 6);
    assert_eq!(account.date_created, parse_ts("2021-06-23T22:04:20Z"));
    assert!(matches!(account.account_type, AccountType::margin));
}

#[test]
fn test_get_orders_round_trip() {
    let config = TradierConfig {
        token: "xxx".to_string(),
        endpoint: "http://127.0.0.1:8080".to_string(),
    };
    let url = endpoint(&config, orders_path("VA000000").as_str());
    assert_eq!(url, "http://127.0.0.1:8080/v1/accounts/VA000000/orders");
    let query = orders_query(false);
    assert_eq!(query.len(), 1);
    assert_eq!(query[0], ("includeTags".to_string(), "false".to_string()));

    let fixture = "{\"orders\":{\"order\":[{\"id\":8248093},{\"id\":8248094},{\"id\":8248095}]}}";
    let v: serde_json::Value = serde_json::from_str(fixture).unwrap();
    let shape = match v["orders"]["order"].as_array() {
        Some(items) => {
            ListShape::Many(items.iter().map(|o| o["id"].as_u64().unwrap()).collect())
        },
        None => ListShape::Empty,
    };
    let ids = normalize_list(shape);
    assert_eq!(ids, vec![8248093, 8248094, 8248095]);
}

#[test]
fn test_get_orders_empty_round_trip() {
    let fixture = "{\"orders\":\"null\"}";
    let v: serde_json::Value = serde_json::from_str(fixture).unwrap();
    let shape: ListShape<u64> = match v["orders"]["order"].as_array() {
        Some(items) => {
            ListShape::Many(items.iter().map(|o| o["id"].as_u64().unwrap()).collect())
        },
        None => ListShape::Empty,
    };
    let ids = normalize_list(shape);
    assert!(ids.is_empty());
}

#[test]
fn test_get_positions_single_round_trip() {
    let fixture = "{\"positions\":{\"position\":{\"id\":130089,\"symbol\":\"AAPL\"}}}";
    let v: serde_json::Value = serde_json::from_str(fixture).unwrap();
    let position_v = &v["positions"]["position"];
    let shape = if position_v.is_array() {
        ListShape::Many(
            position_v
                .as_array()
                .unwrap()
                .iter()
                .map(|p| p["symbol"].as_str().unwrap().to_string())
                .collect(),
        )
    } else if position_v.is_object() {
        ListShape::One(position_v["symbol"].as_str().unwrap().to_string())
    } else {
        ListShape::Empty
    };
    let symbols = normalize_list(shape);
    assert_eq!(symbols, vec!["AAPL".to_string()]);
}

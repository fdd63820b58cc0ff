//! Client library for a brokerage REST API.
//!
//! The verified core builds request paths, query and form parameters, and
//! normalizes the API's inconsistent response shapes (a single object, an
//! array, or an empty field where a list is meant) into plain sequences.
//! Sending requests and decoding JSON bodies is left to unverified glue
//! around this crate.

#![allow(non_camel_case_types)]

use vstd::prelude::*;

pub mod account;
pub mod calendar;
pub mod market_data;
pub mod shape;
pub mod text;
pub mod time;
pub mod trading;

verus! {

use vstd::string::StringExecFns;

/// Connection settings for the brokerage API: base URL and bearer token.
#[derive(Debug, Clone)]
pub struct TradierConfig {
    pub token: String,
    pub endpoint: String,
}

/// Full URL of an API route: the configured base, the version segment `v1`,
/// and the route's path.
pub fn endpoint(config: &TradierConfig, path: &str) -> (url: String)
    ensures
        url@ == config.endpoint@ + "/v1/"@ + path@,
{
    config.endpoint.clone().concat("/v1/").concat(path)
}

/// Value of the `Authorization` header for the configured token.
pub fn bearer(token: &str) -> (value: String)
    ensures
        value@ == "Bearer "@ + token@,
{
    "Bearer ".to_owned().concat(token)
}

/// Order pricing style accepted by the API.
#[derive(Debug, Clone, Copy, PartialEq, Eq, Structural)]
pub enum OrderType {
    market,
    limit,
    stop,
    stop_limit,
    debit,
    credit,
    even,
}

impl OrderType {
    /// The name this variant has on the wire.
    pub open spec fn wire_name(self) -> Seq<char> {
        match self {
            OrderType::market => "market"@,
            OrderType::limit => "limit"@,
            OrderType::stop => "stop"@,
            OrderType::stop_limit => "stop_limit"@,
            OrderType::debit => "debit"@,
            OrderType::credit => "credit"@,
            OrderType::even => "even"@,
        }
    }

    pub fn as_str(&self) -> (r: &'static str)
        ensures
            r@ == self.wire_name(),
    {
        match self {
            OrderType::market => "market",
            OrderType::limit => "limit",
            OrderType::stop => "stop",
            OrderType::stop_limit => "stop_limit",
            OrderType::debit => "debit",
            OrderType::credit => "credit",
            OrderType::even => "even",
        }
    }
}

/// Asset class of an order.
#[derive(Debug, Clone, Copy, PartialEq, Eq, Structural)]
pub enum Class {
    equity,
    option,
    multileg,
    combo,
}

impl Class {
    /// The name this variant has on the wire.
    pub open spec fn wire_name(self) -> Seq<char> {
        match self {
            Class::equity => "equity"@,
            Class::option => "option"@,
            Class::multileg => "multileg"@,
            Class::combo => "combo"@,
        }
    }

    pub fn as_str(&self) -> (r: &'static str)
        ensures
            r@ == self.wire_name(),
    {
        match self {
            Class::equity => "equity",
            Class::option => "option",
            Class::multileg => "multileg",
            Class::combo => "combo",
        }
    }
}

/// Side of an order.
#[derive(Debug, Clone, Copy, PartialEq, Eq, Structural)]
pub enum Side {
    buy,
    buy_to_cover,
    sell,
    sell_short,
    buy_to_open,
    buy_to_close,
    sell_to_open,
    sell_to_close,
}

impl Side {
    /// The name this variant has on the wire.
    pub open spec fn wire_name(self) -> Seq<char> {
        match self {
            Side::buy => "buy"@,
            Side::buy_to_cover => "buy_to_cover"@,
            Side::sell => "sell"@,
            Side::sell_short => "sell_short"@,
            Side::buy_to_open => "buy_to_open"@,
            Side::buy_to_close => "buy_to_close"@,
            Side::sell_to_open => "sell_to_open"@,
            Side::sell_to_close => "sell_to_close"@,
        }
    }

    pub fn as_str(&self) -> (r: &'static str)
        ensures
            r@ == self.wire_name(),
    {
        match self {
            Side::buy => "buy",
            Side::buy_to_cover => "buy_to_cover",
            Side::sell => "sell",
            Side::sell_short => "sell_short",
            Side::buy_to_open => "buy_to_open",
            Side::buy_to_close => "buy_to_close",
            Side::sell_to_open => "sell_to_open",
            Side::sell_to_close => "sell_to_close",
        }
    }
}

/// How long an order stays active.
#[derive(Debug, Clone, Copy, PartialEq, Eq, Structural)]
pub enum Duration {
    day,
    gtc,
    pre,
    post,
}

impl Duration {
    /// The name this variant has on the wire.
    pub open spec fn wire_name(self) -> Seq<char> {
        match self {
            Duration::day => "day"@,
            Duration::gtc => "gtc"@,
            Duration::pre => "pre"@,
            Duration::post => "post"@,
        }
    }

    pub fn as_str(&self) -> (r: &'static str)
        ensures
            r@ == self.wire_name(),
    {
        match self {
            Duration::day => "day",
            Duration::gtc => "gtc",
            Duration::pre => "pre",
            Duration::post => "post",
        }
    }
}

/// Lifecycle state the API reports for an order.
#[derive(Debug, Clone, Copy, PartialEq, Eq, Structural)]
pub enum OrderStatus {
    open,
    partially_filled,
    filled,
    expired,
    canceled,
    pending,
    rejected,
    calculated,
    accepted_for_bidding,
    error,
    held,
}

/// Legal classification of an account.
#[derive(Debug, Clone, Copy, PartialEq, Eq, Structural)]
pub enum Classification {
    individual,
    entity,
    joint_survivor,
    traditional_ira,
    roth_ira,
    rollover_ira,
    sep_ira,
}

/// Funding arrangement of an account.
#[derive(Debug, Clone, Copy, PartialEq, Eq, Structural)]
pub enum AccountType {
    cash,
    margin,
}

/// Whether an account is open for trading.
#[derive(Debug, Clone, Copy, PartialEq, Eq, Structural)]
pub enum AccountStatus {
    active,
    closed,
}

} // verus!

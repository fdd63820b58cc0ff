//! Market-data endpoints: quotes and time-and-sales.
//!
//! The quotes route carries its symbols comma-joined in the path; the
//! time-and-sales query carries its window in exchange-local time, rendered
//! to the minute.  Both renderings are verified; the float-valued response
//! bodies are decoded by the glue around the library.

use vstd::prelude::*;

verus! {

use vstd::string::StringExecFns;
use crate::text::{bool_seq, bool_str, joined_with_commas, join_comma, pairs_view};
use crate::time::{
    UTC_SECS_MIN,
    UTC_SECS_MAX,
    format_minute,
    minute_seq,
    ny_offset_of,
    ny_utc_to_local,
};

/// Kind of instrument a quote describes.
#[derive(Debug, Clone, Copy, PartialEq, Eq, Structural)]
pub enum QuoteType {
    stock,
    option,
    etf,
    index,
    mutual_fund,
}

/// Direction of an option contract.
#[derive(Debug, Clone, Copy, PartialEq, Eq, Structural)]
pub enum OptionType {
    put,
    call,
}

/// Which trading sessions the time-and-sales series covers.
#[derive(Debug, Clone, Copy, PartialEq, Eq, Structural)]
pub enum SessionFilter {
    all,
    open,
}

impl SessionFilter {
    /// The name this variant has on the wire.
    pub open spec fn wire_name(self) -> Seq<char> {
        match self {
            SessionFilter::all => "all"@,
            SessionFilter::open => "open"@,
        }
    }

    pub fn as_str(&self) -> (r: &'static str)
        ensures
            r@ == self.wire_name(),
    {
        match self {
            SessionFilter::all => "all",
            SessionFilter::open => "open",
        }
    }
}

/// Route of the quotes endpoint: the symbols ride in the path,
/// comma-joined, in their given order.
pub fn quotes_path(symbols: &Vec<String>) -> (r: String)
    ensures
        r@ == "markets/quotes?"@ + joined_with_commas(symbols@.map_values(|s: String| s@)),
{
    "markets/quotes?".to_owned().concat(join_comma(symbols).as_str())
}

/// The single query pair of a quotes request; an absent `greeks` choice
/// means `false`.
pub open spec fn quotes_query_spec(greeks: Option<bool>) -> Seq<(Seq<char>, Seq<char>)> {
    seq![("greeks"@, bool_seq(greeks == Some(true)))]
}

/// Builds the query of a quotes request.
pub fn quotes_query(greeks: Option<bool>) -> (q: Vec<(String, String)>)
    ensures
        pairs_view(q@) == quotes_query_spec(greeks),
{
    let g = match greeks {
        Some(b) => b,
        None => false,
    };
    let mut q: Vec<(String, String)> = Vec::new();
    q.push(("greeks".to_owned(), bool_str(g).to_owned()));
    proof {
        assert(pairs_view(q@) =~= quotes_query_spec(greeks));
    }
    q
}

/// The query pairs of a time-and-sales request: the symbol, then each given
/// choice in the order the API documents.  The window's UTC bounds appear
/// as exchange-local times rendered to the minute.
pub open spec fn timesales_query_spec(
    symbol: String,
    interval: Option<String>,
    start_utc: Option<i64>,
    end_utc: Option<i64>,
    session_filter: Option<SessionFilter>,
) -> Seq<(Seq<char>, Seq<char>)> {
    let q0 = seq![("symbol"@, symbol@)];
    let q1 = match interval {
        Some(i) => q0.push(("interval"@, i@)),
        None => q0,
    };
    let q2 = match start_utc {
        Some(t) => q1.push(("start"@, minute_seq(t + ny_offset_of(t as int)))),
        None => q1,
    };
    let q3 = match end_utc {
        Some(t) => q2.push(("end"@, minute_seq(t + ny_offset_of(t as int)))),
        None => q2,
    };
    match session_filter {
        Some(f) => q3.push(("session_filter"@, f.wire_name())),
        None => q3,
    }
}

/// Builds the query of a time-and-sales request, converting the UTC window
/// bounds to exchange-local time.
pub fn timesales_query(
    symbol: String,
    interval: Option<String>,
    start_utc: Option<i64>,
    end_utc: Option<i64>,
    session_filter: Option<SessionFilter>,
) -> (q: Vec<(String, String)>)
    requires
        start_utc matches Some(t) ==> UTC_SECS_MIN + 86400 <= t <= UTC_SECS_MAX,
        end_utc matches Some(t) ==> UTC_SECS_MIN + 86400 <= t <= UTC_SECS_MAX,
    ensures
        pairs_view(q@) == timesales_query_spec(symbol, interval, start_utc, end_utc, session_filter),
{
    let ghost g0 = seq![("symbol"@, symbol@)];
    let ghost g1 = match interval {
        Some(ref i) => g0.push(("interval"@, i@)),
        None => g0,
    };
    let ghost g2 = match start_utc {
        Some(t) => g1.push(("start"@, minute_seq(t + ny_offset_of(t as int)))),
        None => g1,
    };
    let ghost g3 = match end_utc {
        Some(t) => g2.push(("end"@, minute_seq(t + ny_offset_of(t as int)))),
        None => g2,
    };

    let mut q: Vec<(String, String)> = Vec::new();
    q.push(("symbol".to_owned(), symbol));
    proof {
        assert(pairs_view(q@) =~= g0);
    }
    if let Some(i) = interval {
        q.push(("interval".to_owned(), i));
    }
    proof {
        assert(pairs_view(q@) =~= g1);
    }
    if let Some(t) = start_utc {
        let local = ny_utc_to_local(t);
        q.push(("start".to_owned(), format_minute(local)));
    }
    proof {
        assert(pairs_view(q@) =~= g2);
    }
    if let Some(t) = end_utc {
        let local = ny_utc_to_local(t);
        q.push(("end".to_owned(), format_minute(local)));
    }
    proof {
        assert(pairs_view(q@) =~= g3);
    }
    if let Some(f) = session_filter {
        q.push(("session_filter".to_owned(), f.as_str().to_owned()));
    }
    proof {
        assert(pairs_view(q@) =~= timesales_query_spec(
            symbol,
            interval,
            start_utc,
            end_utc,
            session_filter,
        ));
    }
    q
}

} // verus!

//! Order placement and cancellation.
//!
//! The order form and the cancellation route are built here, verified
//! against the exact pairs and characters they put on the wire, and the
//! cancellation outcome is decided here: success exactly on an upstream
//! status of 200, any other status surfacing the raw body as error text.

use vstd::prelude::*;

verus! {

use vstd::string::StringExecFns;
use crate::{Class, Duration, OrderType, Side};
use crate::text::{dec_seq, int_dec_seq, i64_dec, pairs_view, u64_dec};

/// An order acknowledgment as the trading endpoints return it.
#[derive(Debug, Clone)]
pub struct Order {
    pub id: u64,
    pub status: String,
    pub partner_id: Option<String>,
}

/// Response to placing an order.
#[derive(Debug, Clone)]
pub struct OrderResponse {
    pub order: Order,
}

/// Response to cancelling an order.
#[derive(Debug, Clone)]
pub struct CancelledResponse {
    pub order: Order,
}

/// Error surfaced when the API refuses a cancellation: the raw body text of
/// the upstream response.
#[derive(Debug, Clone)]
pub struct CancelError {
    pub body: String,
}

/// Route that deletes one order of one account.
pub fn order_delete_path(account_id: &str, order_id: i64) -> (r: String)
    ensures
        r@ == "accounts/"@ + account_id@ + "/orders/"@ + int_dec_seq(order_id as int),
{
    "accounts/".to_owned().concat(account_id).concat("/orders/").concat(i64_dec(order_id).as_str())
}

/// The form pairs of an order placement: the six required fields in the
/// order the API documents, then each given optional one.  The price and
/// stop limits arrive already rendered as decimal text.
pub open spec fn order_form_spec(
    class: Class,
    symbol: String,
    side: Side,
    quantity: u64,
    order_type: OrderType,
    duration: Duration,
    price: Option<String>,
    stop: Option<String>,
    tag: Option<String>,
) -> Seq<(Seq<char>, Seq<char>)> {
    let f0 = seq![
        ("class"@, class.wire_name()),
        ("symbol"@, symbol@),
        ("side"@, side.wire_name()),
        ("quantity"@, dec_seq(quantity as nat)),
        ("type"@, order_type.wire_name()),
        ("duration"@, duration.wire_name()),
    ];
    let f1 = match price {
        Some(ref p) => f0.push(("price"@, p@)),
        None => f0,
    };
    let f2 = match stop {
        Some(ref s) => f1.push(("stop"@, s@)),
        None => f1,
    };
    match tag {
        Some(t) => f2.push(("tag"@, t@)),
        None => f2,
    }
}

/// Builds the form body of an order placement.
pub fn order_form(
    class: Class,
    symbol: String,
    side: Side,
    quantity: u64,
    order_type: OrderType,
    duration: Duration,
    price: Option<String>,
    stop: Option<String>,
    tag: Option<String>,
) -> (f: Vec<(String, String)>)
    ensures
        pairs_view(f@) == order_form_spec(
            class,
            symbol,
            side,
            quantity,
            order_type,
            duration,
            price,
            stop,
            tag,
        ),
{
    let ghost f0 = seq![
        ("class"@, class.wire_name()),
        ("symbol"@, symbol@),
        ("side"@, side.wire_name()),
        ("quantity"@, dec_seq(quantity as nat)),
        ("type"@, order_type.wire_name()),
        ("duration"@, duration.wire_name()),
    ];
    let ghost f1 = match price {
        Some(ref p) => f0.push(("price"@, p@)),
        None => f0,
    };
    let ghost f2 = match stop {
        Some(ref s) => f1.push(("stop"@, s@)),
        None => f1,
    };

    let mut f: Vec<(String, String)> = Vec::new();
    f.push(("class".to_owned(), class.as_str().to_owned()));
    f.push(("symbol".to_owned(), symbol));
    f.push(("side".to_owned(), side.as_str().to_owned()));
    f.push(("quantity".to_owned(), u64_dec(quantity)));
    f.push(("type".to_owned(), order_type.as_str().to_owned()));
    f.push(("duration".to_owned(), duration.as_str().to_owned()));
    proof {
        assert(pairs_view(f@) =~= f0);
    }
    if let Some(p) = price {
        f.push(("price".to_owned(), p));
    }
    proof {
        assert(pairs_view(f@) =~= f1);
    }
    if let Some(s) = stop {
        f.push(("stop".to_owned(), s));
    }
    proof {
        assert(pairs_view(f@) =~= f2);
    }
    if let Some(t) = tag {
        f.push(("tag".to_owned(), t));
    }
    proof {
        assert(pairs_view(f@) =~= order_form_spec(
            class,
            symbol,
            side,
            quantity,
            order_type,
            duration,
            price,
            stop,
            tag,
        ));
    }
    f
}

/// Decides a cancellation from the upstream status and body: success holds
/// exactly when the status is 200, and then the body is handed on for
/// decoding; any other status surfaces the raw body as the error's text.
pub fn cancel_decision(status: u16, body: String) -> (r: Result<String, CancelError>)
    ensures
        r is Ok <==> status == 200,
        r matches Ok(b) ==> b == body,
        r matches Err(e) ==> e.body == body,
{
    if status == 200 {
        Ok(body)
    } else {
        Err(CancelError { body })
    }
}

} // verus!

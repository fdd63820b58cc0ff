//! Account endpoints: balances, history, orders, positions and the user
//! profile.
//!
//! Each endpoint's route and query parameters are built here, verified
//! against the exact character sequences they put on the wire.  The profile
//! response, whose fields the library models as plain values, is normalized
//! here as well; the float-valued responses (balances, orders, positions,
//! history events) are normalized through [`crate::shape`] by the glue that
//! decodes them.

use vstd::prelude::*;

verus! {

use vstd::string::StringExecFns;
use crate::{AccountStatus, AccountType, Classification};
use crate::text::{bool_seq, bool_str, dec_seq, pairs_view, u64_dec};
use crate::time::{UTC_SECS_MIN, UTC_SECS_MAX, format_rfc3339, rfc3339_seq};

/// Which balance breakdown an account carries.
#[derive(Debug, Clone, Copy, PartialEq, Eq, Structural)]
pub enum Type {
    cash,
    margin,
    pdt,
}

impl Default for Type {
    /// An account's balance breakdown is taken to be `cash` until the API
    /// says otherwise.
    fn default() -> (r: Self)
        ensures
            r == Type::cash,
    {
        Type::cash
    }
}

/// The empty object the orders endpoint returns in place of a list when an
/// account has no orders.
#[derive(Debug, Clone, PartialEq, Eq, Structural)]
pub struct NoOrdersRoot {}

/// Kind of ledger event the history endpoint reports.
#[derive(Debug, Clone, Copy, PartialEq, Eq, Structural)]
pub enum EventTypeEnum {
    trade,
    option,
    ach,
    wire,
    dividend,
    fee,
    tax,
    journal,
    check,
    transfer,
    adjustment,
    interest,
    DIVADJ,
}

impl EventTypeEnum {
    /// The name this variant has on the wire.
    pub open spec fn wire_name(self) -> Seq<char> {
        match self {
            EventTypeEnum::trade => "trade"@,
            EventTypeEnum::option => "option"@,
            EventTypeEnum::ach => "ach"@,
            EventTypeEnum::wire => "wire"@,
            EventTypeEnum::dividend => "dividend"@,
            EventTypeEnum::fee => "fee"@,
            EventTypeEnum::tax => "tax"@,
            EventTypeEnum::journal => "journal"@,
            EventTypeEnum::check => "check"@,
            EventTypeEnum::transfer => "transfer"@,
            EventTypeEnum::adjustment => "adjustment"@,
            EventTypeEnum::interest => "interest"@,
            EventTypeEnum::DIVADJ => "DIVADJ"@,
        }
    }

    pub fn as_str(&self) -> (r: &'static str)
        ensures
            r@ == self.wire_name(),
    {
        match self {
            EventTypeEnum::trade => "trade",
            EventTypeEnum::option => "option",
            EventTypeEnum::ach => "ach",
            EventTypeEnum::wire => "wire",
            EventTypeEnum::dividend => "dividend",
            EventTypeEnum::fee => "fee",
            EventTypeEnum::tax => "tax",
            EventTypeEnum::journal => "journal",
            EventTypeEnum::check => "check",
            EventTypeEnum::transfer => "transfer",
            EventTypeEnum::adjustment => "adjustment",
            EventTypeEnum::interest => "interest",
            EventTypeEnum::DIVADJ => "DIVADJ",
        }
    }
}

/// One account linked to the user profile.  The creation and last-update
/// dates are UTC instants in seconds since the Unix epoch.
#[derive(Debug, Clone)]
pub struct Account {
    pub account_number: String,
    pub classification: Classification,
    pub date_created: i64,
    pub day_trader: bool,
    pub option_level: u8,
    pub status: AccountStatus,
    pub account_type: AccountType,
    pub last_update_date: i64,
}

/// The user's identity and every account linked to it.
#[derive(Debug, Clone)]
pub struct Profile {
    pub id: String,
    pub name: String,
    pub account: Vec<Account>,
}

/// The profile endpoint's canonical response.
#[derive(Debug, Clone)]
pub struct UserProfile {
    pub profile: Profile,
}

/// A profile as the API returns it when exactly one account is linked: the
/// account stands bare instead of in a list.
#[derive(Debug, Clone)]
pub struct SingleProfile {
    pub id: String,
    pub name: String,
    pub account: Account,
}

/// The two shapes the profile endpoint returns.
#[derive(Debug, Clone)]
pub enum ProfileShape {
    One(SingleProfile),
    Many(UserProfile),
}

/// Normalizes a profile response: a bare account becomes a one-account
/// list, a list stays exactly as it came.
pub fn user_profile_normalize(shape: ProfileShape) -> (r: UserProfile)
    ensures
        match shape {
            ProfileShape::One(sp) => r.profile.id == sp.id && r.profile.name == sp.name
                && r.profile.account@ == seq![sp.account],
            ProfileShape::Many(up) => r == up,
        },
{
    match shape {
        ProfileShape::One(sp) => {
            let mut account: Vec<Account> = Vec::new();
            account.push(sp.account);
            proof {
                assert(account@ =~= seq![account@[0]]);
            }
            UserProfile { profile: Profile { id: sp.id, name: sp.name, account } }
        },
        ProfileShape::Many(up) => up,
    }
}

/// Route of the balances endpoint for one account.
pub fn balances_path(account_id: &str) -> (r: String)
    ensures
        r@ == "accounts/"@ + account_id@ + "/balances"@,
{
    "accounts/".to_owned().concat(account_id).concat("/balances")
}

/// Route of the history endpoint for one account.
pub fn history_path(account_id: &str) -> (r: String)
    ensures
        r@ == "accounts/"@ + account_id@ + "/history"@,
{
    "accounts/".to_owned().concat(account_id).concat("/history")
}

/// Route of the orders endpoint for one account.
pub fn orders_path(account_id: &str) -> (r: String)
    ensures
        r@ == "accounts/"@ + account_id@ + "/orders"@,
{
    "accounts/".to_owned().concat(account_id).concat("/orders")
}

/// Route of the positions endpoint for one account.
pub fn positions_path(account_id: &str) -> (r: String)
    ensures
        r@ == "accounts/"@ + account_id@ + "/positions"@,
{
    "accounts/".to_owned().concat(account_id).concat("/positions")
}

/// The query pairs of a history request: each given filter in the order the
/// API documents, each absent one left out.
pub open spec fn history_query_spec(
    page: Option<u64>,
    limit: Option<u64>,
    activity_type: Option<EventTypeEnum>,
    start: Option<i64>,
    end: Option<i64>,
    symbol: Option<String>,
) -> Seq<(Seq<char>, Seq<char>)> {
    let q0 = Seq::<(Seq<char>, Seq<char>)>::empty();
    let q1 = match page {
        Some(p) => q0.push(("page"@, dec_seq(p as nat))),
        None => q0,
    };
    let q2 = match limit {
        Some(l) => q1.push(("limit"@, dec_seq(l as nat))),
        None => q1,
    };
    let q3 = match activity_type {
        Some(t) => q2.push(("activity_type"@, t.wire_name())),
        None => q2,
    };
    let q4 = match start {
        Some(t) => q3.push(("start"@, rfc3339_seq(t as int))),
        None => q3,
    };
    let q5 = match end {
        Some(t) => q4.push(("end"@, rfc3339_seq(t as int))),
        None => q4,
    };
    match symbol {
        Some(s) => q5.push(("symbol"@, s@)),
        None => q5,
    }
}

/// Builds the query of a history request.
pub fn history_query(
    page: Option<u64>,
    limit: Option<u64>,
    activity_type: Option<EventTypeEnum>,
    start: Option<i64>,
    end: Option<i64>,
    symbol: Option<String>,
) -> (q: Vec<(String, String)>)
    requires
        start matches Some(t) ==> UTC_SECS_MIN <= t <= UTC_SECS_MAX,
        end matches Some(t) ==> UTC_SECS_MIN <= t <= UTC_SECS_MAX,
    ensures
        pairs_view(q@) == history_query_spec(page, limit, activity_type, start, end, symbol),
{
    let ghost g0 = Seq::<(Seq<char>, Seq<char>)>::empty();
    let ghost g1 = match page {
        Some(p) => g0.push(("page"@, dec_seq(p as nat))),
        None => g0,
    };
    let ghost g2 = match limit {
        Some(l) => g1.push(("limit"@, dec_seq(l as nat))),
        None => g1,
    };
    let ghost g3 = match activity_type {
        Some(t) => g2.push(("activity_type"@, t.wire_name())),
        None => g2,
    };
    let ghost g4 = match start {
        Some(t) => g3.push(("start"@, rfc3339_seq(t as int))),
        None => g3,
    };
    let ghost g5 = match end {
        Some(t) => g4.push(("end"@, rfc3339_seq(t as int))),
        None => g4,
    };

    let mut q: Vec<(String, String)> = Vec::new();
    if let Some(p) = page {
        q.push(("page".to_owned(), u64_dec(p)));
    }
    proof {
        assert(pairs_view(q@) =~= g1);
    }
    if let Some(l) = limit {
        q.push(("limit".to_owned(), u64_dec(l)));
    }
    proof {
        assert(pairs_view(q@) =~= g2);
    }
    if let Some(t) = activity_type {
        q.push(("activity_type".to_owned(), t.as_str().to_owned()));
    }
    proof {
        assert(pairs_view(q@) =~= g3);
    }
    if let Some(t) = start {
        q.push(("start".to_owned(), format_rfc3339(t)));
    }
    proof {
        assert(pairs_view(q@) =~= g4);
    }
    if let Some(t) = end {
        q.push(("end".to_owned(), format_rfc3339(t)));
    }
    proof {
        assert(pairs_view(q@) =~= g5);
    }
    if let Some(s) = symbol {
        q.push(("symbol".to_owned(), s));
    }
    proof {
        assert(pairs_view(q@) =~= history_query_spec(
            page,
            limit,
            activity_type,
            start,
            end,
            symbol,
        ));
    }
    q
}

/// The single query pair of an orders request.
pub open spec fn orders_query_spec(include_tags: bool) -> Seq<(Seq<char>, Seq<char>)> {
    seq![("includeTags"@, bool_seq(include_tags))]
}

/// Builds the query of an orders request.
pub fn orders_query(include_tags: bool) -> (q: Vec<(String, String)>)
    ensures
        pairs_view(q@) == orders_query_spec(include_tags),
{
    let mut q: Vec<(String, String)> = Vec::new();
    q.push(("includeTags".to_owned(), bool_str(include_tags).to_owned()));
    proof {
        assert(pairs_view(q@) =~= orders_query_spec(include_tags));
    }
    q
}

} // verus!

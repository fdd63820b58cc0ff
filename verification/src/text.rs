//! Verified rendering of the plain values that appear in request paths,
//! query strings and form bodies: decimal numbers, booleans, and
//! comma-joined symbol lists.

use vstd::prelude::*;

verus! {

use vstd::string::StringExecFns;

/// The ASCII digit for one decimal value.
pub open spec fn digit_char(d: int) -> char {
    if d == 0 {
        '0'
    } else if d == 1 {
        '1'
    } else if d == 2 {
        '2'
    } else if d == 3 {
        '3'
    } else if d == 4 {
        '4'
    } else if d == 5 {
        '5'
    } else if d == 6 {
        '6'
    } else if d == 7 {
        '7'
    } else if d == 8 {
        '8'
    } else {
        '9'
    }
}

/// Decimal rendering of a non-negative integer, most significant digit
/// first, without leading zeros.
pub open spec fn dec_seq(n: nat) -> Seq<char>
    decreases n,
{
    if n < 10 {
        seq![digit_char(n as int)]
    } else {
        dec_seq(n / 10).push(digit_char((n % 10) as int))
    }
}

/// Decimal rendering of a signed integer: a minus sign before the digits of
/// the magnitude when the value is negative.
pub open spec fn int_dec_seq(n: int) -> Seq<char> {
    if n < 0 {
        seq!['-'] + dec_seq((-n) as nat)
    } else {
        dec_seq(n as nat)
    }
}

/// Decimal rendering zero-padded on the left to two places.
pub open spec fn dec2_seq(n: nat) -> Seq<char> {
    if n < 10 {
        seq!['0'] + dec_seq(n)
    } else {
        dec_seq(n)
    }
}

/// The rendering of a boolean on the wire.
pub open spec fn bool_seq(b: bool) -> Seq<char> {
    if b {
        "true"@
    } else {
        "false"@
    }
}

fn digit_str(d: u64) -> (r: &'static str)
    requires
        d < 10,
    ensures
        r@ == seq![digit_char(d as int)],
{
    let r = match d {
        0 => "0",
        1 => "1",
        2 => "2",
        3 => "3",
        4 => "4",
        5 => "5",
        6 => "6",
        7 => "7",
        8 => "8",
        _ => "9",
    };
    proof {
        reveal_strlit("0");
        reveal_strlit("1");
        reveal_strlit("2");
        reveal_strlit("3");
        reveal_strlit("4");
        reveal_strlit("5");
        reveal_strlit("6");
        reveal_strlit("7");
        reveal_strlit("8");
        reveal_strlit("9");
        assert(r@ =~= seq![digit_char(d as int)]);
    }
    r
}

/// Renders an unsigned integer in decimal.
pub fn u64_dec(n: u64) -> (r: String)
    ensures
        r@ == dec_seq(n as nat),
    decreases n,
{
    if n < 10 {
        digit_str(n).to_owned()
    } else {
        let s = u64_dec(n / 10).concat(digit_str(n % 10));
        proof {
            assert(s@ =~= dec_seq(n as nat));
        }
        s
    }
}

/// Renders a signed integer in decimal.
pub fn i64_dec(n: i64) -> (r: String)
    ensures
        r@ == int_dec_seq(n as int),
{
    if n >= 0 {
        u64_dec(n as u64)
    } else {
        let magnitude: u64 = ((-(n as i128)) as u64);
        let s = "-".to_owned().concat(u64_dec(magnitude).as_str());
        proof {
            reveal_strlit("-");
            assert(s@ =~= int_dec_seq(n as int));
        }
        s
    }
}

/// Renders a value below one hundred in decimal, zero-padded to two places.
pub fn u64_dec2(n: u64) -> (r: String)
    requires
        n < 100,
    ensures
        r@ == dec2_seq(n as nat),
{
    if n < 10 {
        let s = "0".to_owned().concat(digit_str(n));
        proof {
            reveal_strlit("0");
            assert(s@ =~= dec2_seq(n as nat));
        }
        s
    } else {
        u64_dec(n)
    }
}

/// The elements of `items` laid end to end with a comma between
/// neighbours.
pub open spec fn joined_with_commas(items: Seq<Seq<char>>) -> Seq<char>
    decreases items.len(),
{
    if items.len() == 0 {
        Seq::empty()
    } else if items.len() == 1 {
        items[0]
    } else {
        items[0] + seq![','] + joined_with_commas(items.drop_first())
    }
}

proof fn lemma_joined_with_commas_push(items: Seq<Seq<char>>, x: Seq<char>)
    ensures
        joined_with_commas(items.push(x)) == if items.len() == 0 {
            x
        } else {
            joined_with_commas(items) + seq![','] + x
        },
    decreases items.len(),
{
    if items.len() == 0 {
        assert(items.push(x)[0] == x);
        assert(joined_with_commas(items.push(x)) == x);
    } else {
        lemma_joined_with_commas_push(items.drop_first(), x);
        assert(items.push(x).drop_first() =~= items.drop_first().push(x));
        if items.len() == 1 {
            assert(joined_with_commas(items) == items[0]);
            assert(items.push(x)[0] == items[0]);
        } else {
            assert(items.push(x)[0] == items[0]);
        }
    }
}

/// Joins the given symbols with commas, in their given order.
pub fn join_comma(items: &Vec<String>) -> (r: String)
    ensures
        r@ == joined_with_commas(items@.map_values(|s: String| s@)),
{
    let ghost views = items@.map_values(|s: String| s@);
    let mut r = String::new();
    let mut i: usize = 0;
    while i < items.len()
        invariant
            i <= items.len(),
            views == items@.map_values(|s: String| s@),
            r@ == joined_with_commas(views.take(i as int)),
        decreases items.len() - i,
    {
        if i > 0 {
            r.append(",");
        }
        r.append(items[i].as_str());
        proof {
            reveal_strlit(",");
            lemma_joined_with_commas_push(views.take(i as int), views[i as int]);
            assert(views.take(i + 1 as int) =~= views.take(i as int).push(views[i as int]));
            assert(r@ == joined_with_commas(views.take(i + 1 as int)));
        }
        i = i + 1;
    }
    proof {
        assert(views.take(items@.len() as int) =~= views);
    }
    r
}

/// Renders a boolean as it appears on the wire.
pub fn bool_str(b: bool) -> (r: &'static str)
    ensures
        r@ == bool_seq(b),
{
    if b {
        "true"
    } else {
        "false"
    }
}

/// The view of one query or form pair: key and value as character
/// sequences.
pub open spec fn pair_view(p: (String, String)) -> (Seq<char>, Seq<char>) {
    (p.0@, p.1@)
}

/// The view of a whole pair list.
pub open spec fn pairs_view(q: Seq<(String, String)>) -> Seq<(Seq<char>, Seq<char>)> {
    q.map_values(|p: (String, String)| pair_view(p))
}

} // verus!

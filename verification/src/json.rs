//! Framing of the outbound request body.
//!
//! Each tick forwards its signal to the downstream consumer as a JSON
//! object `{"x": ..., "y": ..., "timestamp": ...}`. The body is framed
//! here, character by character, against a specification of the decimal
//! rendering, so that what goes on the wire is exactly the signal's
//! fields.

use crate::signal::Signal;
use vstd::prelude::*;

verus! {

/// The character of one decimal digit.
pub open spec fn spec_digit(d: nat) -> char
    recommends
        d < 10,
{
    if d == 0 {
        '0'
    } else if d == 1 {
        '1'
    } else if d == 2 {
        '2'
    } else if d == 3 {
        '3'
    } else if d == 4 {
        '4'
    } else if d == 5 {
        '5'
    } else if d == 6 {
        '6'
    } else if d == 7 {
        '7'
    } else if d == 8 {
        '8'
    } else {
        '9'
    }
}

/// The decimal rendering of a natural number, most significant digit
/// first, with no leading zeros except for zero itself.
pub open spec fn spec_dec(n: nat) -> Seq<char>
    decreases n,
{
    if n < 10 {
        seq![spec_digit(n)]
    } else {
        spec_dec(n / 10) + seq![spec_digit(n % 10)]
    }
}

/// The decimal rendering of an integer: a minus sign before the
/// magnitude for negative values.
pub open spec fn spec_dec_signed(v: int) -> Seq<char> {
    if v < 0 {
        seq!['-'] + spec_dec((-v) as nat)
    } else {
        spec_dec(v as nat)
    }
}

/// The JSON object framed for a signal with the given field values.
pub open spec fn spec_signal_json(x: int, y: int, timestamp: int) -> Seq<char> {
    "{\"x\":"@ + spec_dec_signed(x) + ",\"y\":"@ + spec_dec_signed(y) + ",\"timestamp\":"@
        + spec_dec_signed(timestamp) + "}"@
}

/// One decimal digit as a string slice.
fn digit_str(d: u64) -> (s: &'static str)
    requires
        d < 10,
    ensures
        s@ =~= seq![spec_digit(d as nat)],
{
    proof {
        reveal_strlit("0");
        reveal_strlit("1");
        reveal_strlit("2");
        reveal_strlit("3");
        reveal_strlit("4");
        reveal_strlit("5");
        reveal_strlit("6");
        reveal_strlit("7");
        reveal_strlit("8");
        reveal_strlit("9");
    }
    match d {
        0 => "0",
        1 => "1",
        2 => "2",
        3 => "3",
        4 => "4",
        5 => "5",
        6 => "6",
        7 => "7",
        8 => "8",
        _ => "9",
    }
}

/// Render a natural number in decimal.
fn dec_u64(n: u64) -> (s: String)
    ensures
        s@ == spec_dec(n as nat),
    decreases n,
{
    if n < 10 {
        String::from_str(digit_str(n))
    } else {
        let mut s = dec_u64(n / 10);
        s.append(digit_str(n % 10));
        proof {
            assert(s@ =~= spec_dec(n as nat));
        }
        s
    }
}

/// Render a signed integer in decimal.
fn dec_i64(v: i64) -> (s: String)
    ensures
        s@ == spec_dec_signed(v as int),
{
    if v >= 0 {
        dec_u64(v as u64)
    } else {
        let magnitude: u64 = if v == i64::MIN {
            9223372036854775808u64
        } else {
            (-v) as u64
        };
        let mut s = String::from_str("-");
        let digits = dec_u64(magnitude);
        s.append(digits.as_str());
        proof {
            reveal_strlit("-");
            assert(s@ =~= spec_dec_signed(v as int));
        }
        s
    }
}

/// Frame the JSON body forwarded for one signal: exactly its three
/// fields, rendered in decimal, in the order x, y, timestamp.
pub fn signal_to_json(s: &Signal) -> (body: String)
    ensures
        body@ == spec_signal_json(s.x as int, s.y as int, s.timestamp as int),
{
    let mut body = String::from_str("{\"x\":");
    let x = dec_i64(s.x as i64);
    body.append(x.as_str());
    body.append(",\"y\":");
    let y = dec_i64(s.y as i64);
    body.append(y.as_str());
    body.append(",\"timestamp\":");
    let t = dec_i64(s.timestamp);
    body.append(t.as_str());
    body.append("}");
    proof {
        assert(body@ =~= spec_signal_json(s.x as int, s.y as int, s.timestamp as int));
    }
    body
}

} // verus!

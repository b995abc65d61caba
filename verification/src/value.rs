//! Script-visible values. Objects are carried by reference into the realm's
//! object heap; the other variants are plain immediate values.

use vstd::prelude::*;

verus! {

/// A reference into the realm's object heap: the index of the object record.
pub type ObjRef = usize;

/// A script-visible value.
#[derive(Debug, PartialEq, Eq)]
pub enum JsValue {
    Undefined,
    Bool(bool),
    Int(i64),
    Str(String),
    Object(ObjRef),
}

impl Clone for JsValue {
    fn clone(&self) -> (r: Self)
        ensures
            r == *self,
    {
        match self {
            JsValue::Undefined => JsValue::Undefined,
            JsValue::Bool(b) => JsValue::Bool(*b),
            JsValue::Int(i) => JsValue::Int(*i),
            JsValue::Str(s) => JsValue::Str(s.clone()),
            JsValue::Object(r) => JsValue::Object(*r),
        }
    }
}

impl JsValue {
    /// True exactly of the `Undefined` value.
    pub fn is_undefined(&self) -> (r: bool)
        ensures
            r == (*self is Undefined),
    {
        match self {
            JsValue::Undefined => true,
            _ => false,
        }
    }
}

/// The decimal digit character for `d` (defined for `0 <= d < 10`).
pub open spec fn decimal_digit(d: int) -> char {
    if d == 0 {
        '0'
    } else if d == 1 {
        '1'
    } else if d == 2 {
        '2'
    } else if d == 3 {
        '3'
    } else if d == 4 {
        '4'
    } else if d == 5 {
        '5'
    } else if d == 6 {
        '6'
    } else if d == 7 {
        '7'
    } else if d == 8 {
        '8'
    } else {
        '9'
    }
}

/// The decimal representation of a natural number, most significant digit
/// first, with no leading zeros (`0` itself is the single digit `0`).
pub open spec fn decimal_nat(n: nat) -> Seq<char>
    decreases n,
{
    if n < 10 {
        seq![decimal_digit(n as int)]
    } else {
        decimal_nat(n / 10).push(decimal_digit((n % 10) as int))
    }
}

/// The decimal representation of an integer: a minus sign before the
/// magnitude for negative values.
pub open spec fn decimal_int(i: int) -> Seq<char> {
    if i >= 0 {
        decimal_nat(i as nat)
    } else {
        seq!['-'] + decimal_nat((-i) as nat)
    }
}

/// The one-character string for the decimal digit `d`.
fn digit_str(d: u64) -> (r: &'static str)
    requires
        d < 10,
    ensures
        r@ =~= seq![decimal_digit(d as int)],
{
    proof {
        reveal_strlit("0");
        reveal_strlit("1");
        reveal_strlit("2");
        reveal_strlit("3");
        reveal_strlit("4");
        reveal_strlit("5");
        reveal_strlit("6");
        reveal_strlit("7");
        reveal_strlit("8");
        reveal_strlit("9");
    }
    if d == 0 {
        "0"
    } else if d == 1 {
        "1"
    } else if d == 2 {
        "2"
    } else if d == 3 {
        "3"
    } else if d == 4 {
        "4"
    } else if d == 5 {
        "5"
    } else if d == 6 {
        "6"
    } else if d == 7 {
        "7"
    } else if d == 8 {
        "8"
    } else {
        "9"
    }
}

/// Appends the decimal digits of `n` to `out`.
fn push_decimal_u64(n: u64, out: &mut String)
    ensures
        final(out)@ == old(out)@ + decimal_nat(n as nat),
    decreases n,
{
    if n < 10 {
        out.append(digit_str(n));
    } else {
        push_decimal_u64(n / 10, out);
        out.append(digit_str(n % 10));
        proof {
            assert(out@ =~= old(out)@ + decimal_nat(n as nat));
        }
    }
}

/// The decimal string of a signed integer, exactly `decimal_int`.
pub fn to_decimal_string(i: i64) -> (r: String)
    ensures
        r@ == decimal_int(i as int),
{
    let mut out = String::new();
    if i >= 0 {
        push_decimal_u64(i as u64, &mut out);
        proof {
            assert(out@ =~= decimal_int(i as int));
        }
    } else {
        proof {
            reveal_strlit("-");
        }
        out.append("-");
        // The magnitude of `i`, computed without overflowing at the minimum.
        let magnitude: u64 = ((-(i + 1)) as u64) + 1;
        assert(magnitude as int == -(i as int));
        push_decimal_u64(magnitude, &mut out);
        proof {
            assert(out@ =~= decimal_int(i as int));
        }
    }
    out
}

} // verus!

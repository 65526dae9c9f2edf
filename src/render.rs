use vstd::prelude::*;

use crate::scalar::ScalarValue;

verus! {

/// The character of a decimal digit.
pub open spec fn digit_char(d: nat) -> char
    recommends
        d < 10,
{
    seq!['0', '1', '2', '3', '4', '5', '6', '7', '8', '9'][d as int]
}

/// The decimal digits of a natural number, most significant first, with no
/// leading zero.
pub open spec fn decimal_digits(n: nat) -> Seq<char>
    decreases n,
{
    if n < 10 {
        seq![digit_char(n)]
    } else {
        decimal_digits(n / 10).push(digit_char(n % 10))
    }
}

/// The decimal text of an integer: a minus sign before the digits of its
/// magnitude when it is negative.
pub open spec fn decimal_text(i: int) -> Seq<char> {
    if i < 0 {
        seq!['-'] + decimal_digits((-i) as nat)
    } else {
        decimal_digits(i as nat)
    }
}

/// The canonical text of a scalar: its value as written in a query, and
/// `NULL` for a null of any type.
pub open spec fn scalar_text(v: ScalarValue) -> Seq<char> {
    match v {
        ScalarValue::Boolean(Some(b)) => if b { seq!['t', 'r', 'u', 'e'] } else { seq!['f', 'a', 'l', 's', 'e'] },
        ScalarValue::Int8(Some(x)) => decimal_text(x as int),
        ScalarValue::Int16(Some(x)) => decimal_text(x as int),
        ScalarValue::Int32(Some(x)) => decimal_text(x as int),
        ScalarValue::Int64(Some(x)) => decimal_text(x as int),
        ScalarValue::UInt8(Some(x)) => decimal_text(x as int),
        ScalarValue::UInt16(Some(x)) => decimal_text(x as int),
        ScalarValue::UInt32(Some(x)) => decimal_text(x as int),
        ScalarValue::UInt64(Some(x)) => decimal_text(x as int),
        ScalarValue::Utf8(Some(s)) => s@,
        _ => seq!['N', 'U', 'L', 'L'],
    }
}

fn digit_str(d: u64) -> (r: &'static str)
    requires
        d < 10,
    ensures
        r@ == seq![digit_char(d as nat)],
{
    proof {
        reveal_strlit("0");
        reveal_strlit("1");
        reveal_strlit("2");
        reveal_strlit("3");
        reveal_strlit("4");
        reveal_strlit("5");
        reveal_strlit("6");
        reveal_strlit("7");
        reveal_strlit("8");
        reveal_strlit("9");
    }
    if d == 0 {
        "0"
    } else if d == 1 {
        "1"
    } else if d == 2 {
        "2"
    } else if d == 3 {
        "3"
    } else if d == 4 {
        "4"
    } else if d == 5 {
        "5"
    } else if d == 6 {
        "6"
    } else if d == 7 {
        "7"
    } else if d == 8 {
        "8"
    } else {
        "9"
    }
}

/// Appends the decimal digits of `n` to `out`.
pub fn push_decimal_digits(out: &mut String, n: u64)
    ensures
        final(out)@ == old(out)@ + decimal_digits(n as nat),
    decreases n,
{
    if n >= 10 {
        push_decimal_digits(out, n / 10);
    }
    out.append(digit_str(n % 10));
    assert(final(out)@ =~= old(out)@ + decimal_digits(n as nat));
}

/// The decimal text of a signed integer.
pub fn signed_text(i: i64) -> (r: String)
    ensures
        r@ == decimal_text(i as int),
{
    let mut out = String::new();
    if i < 0 {
        proof {
            reveal_strlit("-");
        }
        out.append("-");
        let magnitude: u64 = (0i128 - i as i128) as u64;
        push_decimal_digits(&mut out, magnitude);
    } else {
        push_decimal_digits(&mut out, i as u64);
    }
    assert(out@ =~= decimal_text(i as int));
    out
}

/// The decimal text of an unsigned integer.
pub fn unsigned_text(n: u64) -> (r: String)
    ensures
        r@ == decimal_text(n as int),
{
    let mut out = String::new();
    push_decimal_digits(&mut out, n);
    assert(out@ =~= decimal_text(n as int));
    out
}

fn text_of(s: &'static str) -> (r: String)
    ensures
        r@ == s@,
{
    let mut out = String::new();
    out.append(s);
    assert(out@ =~= s@);
    out
}

impl ScalarValue {
    /// The canonical text of this value, as plan explanations show it.
    pub fn render(&self) -> (r: String)
        ensures
            r@ == scalar_text(*self),
    {
        proof {
            reveal_strlit("true");
            reveal_strlit("false");
            reveal_strlit("NULL");
        }
        match self {
            ScalarValue::Boolean(Some(b)) => if *b { text_of("true") } else { text_of("false") },
            ScalarValue::Int8(Some(x)) => signed_text(*x as i64),
            ScalarValue::Int16(Some(x)) => signed_text(*x as i64),
            ScalarValue::Int32(Some(x)) => signed_text(*x as i64),
            ScalarValue::Int64(Some(x)) => signed_text(*x),
            ScalarValue::UInt8(Some(x)) => unsigned_text(*x as u64),
            ScalarValue::UInt16(Some(x)) => unsigned_text(*x as u64),
            ScalarValue::UInt32(Some(x)) => unsigned_text(*x as u64),
            ScalarValue::UInt64(Some(x)) => unsigned_text(*x),
            ScalarValue::Utf8(Some(s)) => s.clone(),
            _ => text_of("NULL"),
        }
    }
}

} // verus!

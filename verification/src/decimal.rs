//! Decimal formatting of pixel coordinates: each output record is the four
//! components of a box written in base ten and joined by commas.

use vstd::prelude::*;

verus! {

/// The decimal digit character for a value below ten.
pub open spec fn digit_char(d: nat) -> char
    recommends
        d < 10,
{
    if d == 0 {
        '0'
    } else if d == 1 {
        '1'
    } else if d == 2 {
        '2'
    } else if d == 3 {
        '3'
    } else if d == 4 {
        '4'
    } else if d == 5 {
        '5'
    } else if d == 6 {
        '6'
    } else if d == 7 {
        '7'
    } else if d == 8 {
        '8'
    } else {
        '9'
    }
}

/// The decimal digits of a natural number, most significant first,
/// without leading zeros (a lone zero for zero itself).
pub open spec fn decimal_digits(n: nat) -> Seq<char>
    decreases n,
{
    if n < 10 {
        seq![digit_char(n)]
    } else {
        decimal_digits(n / 10) + seq![digit_char(n % 10)]
    }
}

/// The decimal rendering of an integer: a leading minus sign for a
/// negative value, then the digits of its magnitude.
pub open spec fn decimal(v: int) -> Seq<char> {
    if v < 0 {
        seq!['-'] + decimal_digits((v * -1) as nat)
    } else {
        decimal_digits(v as nat)
    }
}

/// Four components rendered in decimal and joined by commas, the shape of
/// one output record.
pub open spec fn record_line_of(a: int, b: int, c: int, d: int) -> Seq<char> {
    decimal(a) + seq![','] + decimal(b) + seq![','] + decimal(c) + seq![','] + decimal(d)
}

/// Appends the digit character for a value below ten.
fn push_digit(s: &mut String, d: u32)
    requires
        d < 10,
    ensures
        final(s)@ == old(s)@ + seq![digit_char(d as nat)],
{
    let c: &str = if d == 0 {
        "0"
    } else if d == 1 {
        "1"
    } else if d == 2 {
        "2"
    } else if d == 3 {
        "3"
    } else if d == 4 {
        "4"
    } else if d == 5 {
        "5"
    } else if d == 6 {
        "6"
    } else if d == 7 {
        "7"
    } else if d == 8 {
        "8"
    } else {
        "9"
    };
    proof {
        reveal_strlit("0");
        reveal_strlit("1");
        reveal_strlit("2");
        reveal_strlit("3");
        reveal_strlit("4");
        reveal_strlit("5");
        reveal_strlit("6");
        reveal_strlit("7");
        reveal_strlit("8");
        reveal_strlit("9");
        assert(c@ =~= seq![digit_char(d as nat)]);
    }
    s.append(c);
    proof {
        assert(s@ =~= old(s)@ + seq![digit_char(d as nat)]);
    }
}

/// Appends the decimal digits of `n`, most significant first.
fn push_decimal_digits(s: &mut String, n: u32)
    ensures
        final(s)@ == old(s)@ + decimal_digits(n as nat),
    decreases n,
{
    if n >= 10 {
        push_decimal_digits(s, n / 10);
        push_digit(s, n % 10);
        proof {
            assert(s@ =~= old(s)@ + decimal_digits(n as nat));
        }
    } else {
        push_digit(s, n);
    }
}

/// Renders a signed 32-bit coordinate in decimal.
pub fn i32_to_decimal(n: i32) -> (r: String)
    ensures
        r@ == decimal(n as int),
{
    let mut s = String::new();
    if n < 0 {
        s.append("-");
        proof {
            reveal_strlit("-");
            assert(s@ =~= seq!['-']);
        }
        let wide: i64 = n as i64;
        let magnitude: u32 = (-wide) as u32;
        push_decimal_digits(&mut s, magnitude);
        proof {
            assert(s@ =~= decimal(n as int));
        }
    } else {
        push_decimal_digits(&mut s, n as u32);
    }
    s
}

/// Renders four components as one comma-joined output record, the
/// serialization every representation shares.
pub fn record_line(a: i32, b: i32, c: i32, d: i32) -> (r: String)
    ensures
        r@ == record_line_of(a as int, b as int, c as int, d as int),
{
    let mut s = i32_to_decimal(a);
    let sb = i32_to_decimal(b);
    let sc = i32_to_decimal(c);
    let sd = i32_to_decimal(d);
    proof {
        reveal_strlit(",");
    }
    s.append(",");
    s.append(sb.as_str());
    s.append(",");
    s.append(sc.as_str());
    s.append(",");
    s.append(sd.as_str());
    proof {
        assert(","@ =~= seq![',']);
        assert(s@ =~= record_line_of(a as int, b as int, c as int, d as int));
    }
    s
}

} // verus!

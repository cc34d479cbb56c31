//! Decimal rendering of integers, as used for identifiers read from the
//! device.

use vstd::prelude::*;

verus! {

/// The character for a single decimal digit.
pub open spec fn digit_char(d: int) -> char
    recommends
        0 <= d < 10,
{
    if d == 0 {
        '0'
    } else if d == 1 {
        '1'
    } else if d == 2 {
        '2'
    } else if d == 3 {
        '3'
    } else if d == 4 {
        '4'
    } else if d == 5 {
        '5'
    } else if d == 6 {
        '6'
    } else if d == 7 {
        '7'
    } else if d == 8 {
        '8'
    } else {
        '9'
    }
}

/// The digits of a natural number, most significant first, without leading
/// zeros; zero is the single digit `0`.
pub open spec fn decimal_digits(n: nat) -> Seq<char>
    decreases n,
{
    if n < 10 {
        seq![digit_char(n as int)]
    } else {
        decimal_digits(n / 10).push(digit_char((n % 10) as int))
    }
}

/// The decimal notation of an integer: its digits, preceded by `-` when it
/// is negative.
pub open spec fn decimal(v: int) -> Seq<char> {
    if v < 0 {
        seq!['-'] + decimal_digits((-v) as nat)
    } else {
        decimal_digits(v as nat)
    }
}

/// The one-character string for a decimal digit.
fn digit_str(d: u32) -> (s: &'static str)
    requires
        d < 10,
    ensures
        s@ == seq![digit_char(d as int)],
{
    proof {
        reveal_strlit("0");
        reveal_strlit("1");
        reveal_strlit("2");
        reveal_strlit("3");
        reveal_strlit("4");
        reveal_strlit("5");
        reveal_strlit("6");
        reveal_strlit("7");
        reveal_strlit("8");
        reveal_strlit("9");
    }
    let s = match d {
        0 => "0",
        1 => "1",
        2 => "2",
        3 => "3",
        4 => "4",
        5 => "5",
        6 => "6",
        7 => "7",
        8 => "8",
        _ => "9",
    };
    assert(s@ =~= seq![digit_char(d as int)]);
    s
}

/// Writes a natural number in decimal.
pub fn render_u32(n: u32) -> (s: String)
    ensures
        s@ == decimal_digits(n as nat),
{
    let mut rest: u32 = n / 10;
    let mut out: String = digit_str(n % 10).to_owned();
    while rest > 0
        invariant
            decimal_digits(n as nat) == if rest > 0 {
                decimal_digits(rest as nat) + out@
            } else {
                out@
            },
        decreases rest,
    {
        let ghost before = out@;
        let digit = digit_str(rest % 10);
        out = digit.to_owned().concat(out.as_str());
        proof {
            let last = digit_char((rest % 10) as int);
            assert(out@ =~= seq![last] + before);
            if rest >= 10 {
                assert(decimal_digits(rest as nat) + before =~= decimal_digits(
                    (rest / 10) as nat,
                ) + out@);
            } else {
                assert(decimal_digits(rest as nat) + before =~= out@);
            }
        }
        rest = rest / 10;
    }
    out
}

/// Writes a signed integer in decimal.
pub fn render_i32(v: i32) -> (s: String)
    ensures
        s@ == decimal(v as int),
{
    if v < 0 {
        let magnitude: u32 = (-(v as i64)) as u32;
        let digits = render_u32(magnitude);
        let s = "-".to_owned().concat(digits.as_str());
        proof {
            reveal_strlit("-");
            assert("-"@ =~= seq!['-']);
        }
        s
    } else {
        render_u32(v as u32)
    }
}

/// A rendered number is never empty, and only a negative one starts with a
/// minus sign.
pub proof fn lemma_decimal_shape(v: int)
    ensures
        decimal(v).len() >= 1,
        v < 0 <==> decimal(v)[0] == '-',
{
    if v < 0 {
        lemma_digits_shape((-v) as nat);
    } else {
        lemma_digits_shape(v as nat);
    }
}

/// The digits of a number are at least one and none of them is a minus sign.
pub proof fn lemma_digits_shape(n: nat)
    ensures
        decimal_digits(n).len() >= 1,
        forall|i: int| 0 <= i < decimal_digits(n).len() ==> decimal_digits(n)[i] != '-',
    decreases n,
{
    if n >= 10 {
        lemma_digits_shape(n / 10);
    }
}

} // verus!

//! Text for messages: decimal numerals and fixed-point amounts.

use crate::fixed::{magnitude, SCALE};
use vstd::prelude::*;
use vstd::string::*;

verus! {

/// The character for a single decimal digit.
pub open spec fn digit(d: int) -> char {
    if d == 0 {
        '0'
    } else if d == 1 {
        '1'
    } else if d == 2 {
        '2'
    } else if d == 3 {
        '3'
    } else if d == 4 {
        '4'
    } else if d == 5 {
        '5'
    } else if d == 6 {
        '6'
    } else if d == 7 {
        '7'
    } else if d == 8 {
        '8'
    } else {
        '9'
    }
}

/// The decimal numeral of `n`, without leading zeros.
pub open spec fn decimal(n: nat) -> Seq<char>
    decreases n,
{
    if n < 10 {
        seq![digit(n as int)]
    } else {
        decimal(n / 10).push(digit((n % 10) as int))
    }
}

/// An amount in millionths written with two decimals, the rest cut off:
/// `3_256_000` is `3.25`, `-500_000` is `-0.50`.
pub open spec fn amount_text(v: int) -> Seq<char> {
    let m = magnitude(v);
    let sign = if v < 0 {
        seq!['-']
    } else {
        Seq::<char>::empty()
    };
    let cents = (m % (SCALE as int)) / 10_000;
    sign + decimal((m / (SCALE as int)) as nat) + seq!['.', digit(cents / 10), digit(cents % 10)]
}

/// The last `width` decimal digits of `n`, with leading zeros.
pub open spec fn padded(n: nat, width: nat) -> Seq<char>
    decreases width,
{
    if width == 0 {
        Seq::empty()
    } else {
        padded(n / 10, (width - 1) as nat).push(digit((n % 10) as int))
    }
}

/// The `width` digits of a fraction without its trailing zeros.
pub open spec fn trimmed(fraction: nat, width: nat) -> Seq<char>
    decreases width,
{
    if width == 0 || fraction == 0 {
        Seq::empty()
    } else if fraction % 10 == 0 {
        trimmed(fraction / 10, (width - 1) as nat)
    } else {
        padded(fraction, width)
    }
}

/// An amount in millionths written as a plain decimal number, with as many
/// decimals as it needs: `5_000_000` is `5`, `12_500_000` is `12.5`,
/// `-1` is `-0.000001`.
pub open spec fn plain_text(v: int) -> Seq<char> {
    let m = magnitude(v);
    let sign = if v < 0 {
        seq!['-']
    } else {
        Seq::<char>::empty()
    };
    let fraction = (m % (SCALE as int)) as nat;
    let tail = if fraction == 0 {
        Seq::<char>::empty()
    } else {
        seq!['.'] + trimmed(fraction, 6)
    };
    sign + decimal((m / (SCALE as int)) as nat) + tail
}

/// An amount in millionths written with one decimal, the rest cut off:
/// `94_560_000` is `94.5`.
pub open spec fn tenths_text(v: int) -> Seq<char> {
    let m = magnitude(v);
    let sign = if v < 0 {
        seq!['-']
    } else {
        Seq::<char>::empty()
    };
    sign + decimal((m / (SCALE as int)) as nat) + seq![
        '.',
        digit((m % (SCALE as int)) / 100_000),
    ]
}

fn digit_str(d: u128) -> (r: &'static str)
    requires
        d < 10,
    ensures
        r@ == seq![digit(d as int)],
{
    proof {
        reveal_strlit("0");
        reveal_strlit("1");
        reveal_strlit("2");
        reveal_strlit("3");
        reveal_strlit("4");
        reveal_strlit("5");
        reveal_strlit("6");
        reveal_strlit("7");
        reveal_strlit("8");
        reveal_strlit("9");
    }
    let r = if d == 0 {
        "0"
    } else if d == 1 {
        "1"
    } else if d == 2 {
        "2"
    } else if d == 3 {
        "3"
    } else if d == 4 {
        "4"
    } else if d == 5 {
        "5"
    } else if d == 6 {
        "6"
    } else if d == 7 {
        "7"
    } else if d == 8 {
        "8"
    } else {
        "9"
    };
    assert(r@ =~= seq![digit(d as int)]);
    r
}

/// Writes `n` in decimal.
pub fn render_decimal(n: u128) -> (r: String)
    ensures
        r@ == decimal(n as nat),
    decreases n,
{
    if n < 10 {
        String::from_str(digit_str(n))
    } else {
        let mut s = render_decimal(n / 10);
        s.append(digit_str(n % 10));
        assert(s@ =~= decimal(n as nat));
        s
    }
}

/// Writes an amount in millionths with two decimals.
pub fn render_amount(v: i128) -> (r: String)
    ensures
        r@ == amount_text(v as int),
{
    proof {
        reveal_strlit("-");
        reveal_strlit("");
        reveal_strlit(".");
    }
    let m: u128 = if v == i128::MIN {
        0x8000_0000_0000_0000_0000_0000_0000_0000
    } else if v < 0 {
        (-v) as u128
    } else {
        v as u128
    };
    let mut s = if v < 0 {
        String::from_str("-")
    } else {
        String::from_str("")
    };
    let whole = render_decimal(m / 1_000_000);
    s.append(whole.as_str());
    s.append(".");
    let cents: u128 = (m % 1_000_000) / 10_000;
    s.append(digit_str(cents / 10));
    s.append(digit_str(cents % 10));
    assert(s@ =~= amount_text(v as int));
    s
}

/// Writes an amount in millionths with one decimal.
pub fn render_tenths(v: i64) -> (r: String)
    ensures
        r@ == tenths_text(v as int),
{
    proof {
        reveal_strlit("-");
        reveal_strlit("");
        reveal_strlit(".");
    }
    let m: u128 = if v < 0 {
        (-(v as i128)) as u128
    } else {
        v as u128
    };
    let mut s = if v < 0 {
        String::from_str("-")
    } else {
        String::from_str("")
    };
    let whole = render_decimal(m / 1_000_000);
    s.append(whole.as_str());
    s.append(".");
    s.append(digit_str((m % 1_000_000) / 100_000));
    assert(s@ =~= tenths_text(v as int));
    s
}

/// Writes the last `width` decimal digits of `n`, with leading zeros.
fn render_padded(n: u128, width: u32) -> (r: String)
    ensures
        r@ == padded(n as nat, width as nat),
    decreases width,
{
    if width == 0 {
        proof {
            reveal_strlit("");
        }
        String::from_str("")
    } else {
        let mut s = render_padded(n / 10, width - 1);
        s.append(digit_str(n % 10));
        assert(s@ =~= padded(n as nat, width as nat));
        s
    }
}

/// Writes the `width` digits of a fraction without its trailing zeros.
fn render_trimmed(fraction: u128, width: u32) -> (r: String)
    ensures
        r@ == trimmed(fraction as nat, width as nat),
    decreases width,
{
    if width == 0 || fraction == 0 {
        proof {
            reveal_strlit("");
        }
        String::from_str("")
    } else if fraction % 10 == 0 {
        render_trimmed(fraction / 10, width - 1)
    } else {
        render_padded(fraction, width)
    }
}

/// Writes an amount in millionths as a plain decimal number.
pub fn render_plain(v: i128) -> (r: String)
    ensures
        r@ == plain_text(v as int),
{
    proof {
        reveal_strlit("-");
        reveal_strlit("");
        reveal_strlit(".");
    }
    let m: u128 = if v == i128::MIN {
        0x8000_0000_0000_0000_0000_0000_0000_0000
    } else if v < 0 {
        (-v) as u128
    } else {
        v as u128
    };
    let mut s = if v < 0 {
        String::from_str("-")
    } else {
        String::from_str("")
    };
    let whole = render_decimal(m / 1_000_000);
    s.append(whole.as_str());
    let fraction: u128 = m % 1_000_000;
    if fraction != 0 {
        s.append(".");
        let digits = render_trimmed(fraction, 6);
        s.append(digits.as_str());
    }
    assert(s@ =~= plain_text(v as int));
    s
}

/// The concatenation of two texts.
pub fn join(head: &str, tail: &str) -> (r: String)
    ensures
        r@ == head@ + tail@,
{
    let mut s = String::from_str(head);
    s.append(tail);
    s
}

/// The concatenation of three texts.
pub fn join3(head: &str, middle: &str, tail: &str) -> (r: String)
    ensures
        r@ == head@ + middle@ + tail@,
{
    let mut s = String::from_str(head);
    s.append(middle);
    s.append(tail);
    s
}

/// The concatenation of five texts.
pub fn join5(first: &str, second: &str, third: &str, fourth: &str, fifth: &str) -> (r: String)
    ensures
        r@ == first@ + second@ + third@ + fourth@ + fifth@,
{
    let mut s = String::from_str(first);
    s.append(second);
    s.append(third);
    s.append(fourth);
    s.append(fifth);
    s
}

/// The concatenation of four texts.
pub fn join4(first: &str, second: &str, third: &str, fourth: &str) -> (r: String)
    ensures
        r@ == first@ + second@ + third@ + fourth@,
{
    let mut s = String::from_str(first);
    s.append(second);
    s.append(third);
    s.append(fourth);
    s
}

} // verus!

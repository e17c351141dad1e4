//! Decimal text of the numbers that a metric line holds.

use crate::record::Scaled;
use vstd::prelude::*;
use vstd::string::StringExecFns;

verus! {

/// The character of a decimal digit.
pub open spec fn digit_char(digit: int) -> char {
    if digit == 0 {
        '0'
    } else if digit == 1 {
        '1'
    } else if digit == 2 {
        '2'
    } else if digit == 3 {
        '3'
    } else if digit == 4 {
        '4'
    } else if digit == 5 {
        '5'
    } else if digit == 6 {
        '6'
    } else if digit == 7 {
        '7'
    } else if digit == 8 {
        '8'
    } else {
        '9'
    }
}

/// The decimal digits of a natural number, without leading zeros.
pub open spec fn decimal(n: nat) -> Seq<char>
    decreases n,
{
    if n < 10 {
        seq![digit_char(n as int)]
    } else {
        decimal(n / 10) + seq![digit_char((n % 10) as int)]
    }
}

/// The decimal text of an integer: a minus sign before a negative one.
pub open spec fn integer_text(value: int) -> Seq<char> {
    if value < 0 {
        "-"@ + decimal((-value) as nat)
    } else {
        decimal(value as nat)
    }
}

/// The decimal text of a natural number in at least two digits.
pub open spec fn two_digit_text(n: nat) -> Seq<char> {
    if n < 10 {
        "0"@ + decimal(n)
    } else {
        decimal(n)
    }
}

/// The digits of `remainder / divisor` after the decimal point, by long
/// division: at most `places` of them, ending with the last digit that is
/// not zero.
pub open spec fn fraction_digits(remainder: nat, divisor: nat, places: nat) -> Seq<char>
    decreases places,
{
    if remainder == 0 || places == 0 {
        Seq::empty()
    } else {
        seq![digit_char((remainder * 10 / divisor) as int)] + fraction_digits(
            remainder * 10 % divisor,
            divisor,
            (places - 1) as nat,
        )
    }
}

/// The magnitude of an integer.
pub open spec fn magnitude(value: int) -> nat {
    if value < 0 {
        (-value) as nat
    } else {
        value as nat
    }
}

/// The decimal text of a fixed-point quantity: sign, whole part and, where
/// the value is not whole, a point and the digits after it without trailing
/// zeros.
pub open spec fn scaled_text(quantity: Scaled) -> Seq<char> {
    let divisor = quantity.scale.spec_divisor() as nat;
    let whole = magnitude(quantity.raw as int) / divisor;
    let remainder = magnitude(quantity.raw as int) % divisor;
    let sign = if quantity.raw < 0 {
        "-"@
    } else {
        Seq::<char>::empty()
    };
    let point = if remainder == 0 {
        Seq::<char>::empty()
    } else {
        "."@
    };
    sign + decimal(whole) + point + fraction_digits(
        remainder,
        divisor,
        quantity.scale.spec_places(),
    )
}

/// The text of one decimal digit.
fn digit_text(digit: u8) -> (text: &'static str)
    requires
        digit < 10,
    ensures
        text@ == seq![digit_char(digit as int)],
{
    proof {
        reveal_strlit("0");
        reveal_strlit("1");
        reveal_strlit("2");
        reveal_strlit("3");
        reveal_strlit("4");
        reveal_strlit("5");
        reveal_strlit("6");
        reveal_strlit("7");
        reveal_strlit("8");
        reveal_strlit("9");
    }
    let text = match digit {
        0 => "0",
        1 => "1",
        2 => "2",
        3 => "3",
        4 => "4",
        5 => "5",
        6 => "6",
        7 => "7",
        8 => "8",
        _ => "9",
    };
    assert(text@ =~= seq![digit_char(digit as int)]);
    text
}

/// Appends the decimal digits of `n` to `line`.
pub fn push_decimal(line: &mut String, n: u32)
    ensures
        final(line)@ == old(line)@ + decimal(n as nat),
    decreases n,
{
    if n >= 10 {
        push_decimal(line, n / 10);
    }
    line.append(digit_text((n % 10) as u8));
    assert(final(line)@ =~= old(line)@ + decimal(n as nat));
}

/// Appends the decimal text of `value` to `line`.
pub fn push_integer(line: &mut String, value: i32)
    ensures
        final(line)@ == old(line)@ + integer_text(value as int),
{
    if value < 0 {
        line.append("-");
        push_decimal(line, (-(value as i64)) as u32);
    } else {
        push_decimal(line, value as u32);
    }
    assert(final(line)@ =~= old(line)@ + integer_text(value as int));
}

/// Appends the decimal text of `n`, in at least two digits, to `line`.
pub fn push_two_digits(line: &mut String, n: u8)
    ensures
        final(line)@ == old(line)@ + two_digit_text(n as nat),
{
    if n < 10 {
        line.append("0");
    }
    push_decimal(line, n as u32);
    assert(final(line)@ =~= old(line)@ + two_digit_text(n as nat));
}

/// Appends the digits of `remainder / divisor` after the decimal point to
/// `line`: at most `places` of them, up to the last one that is not zero.
fn push_fraction(line: &mut String, remainder: u32, divisor: u32, places: u8)
    requires
        remainder < divisor,
    ensures
        final(line)@ == old(line)@ + fraction_digits(
            remainder as nat,
            divisor as nat,
            places as nat,
        ),
{
    let mut left: u32 = remainder;
    let mut places_left: u8 = places;
    while left != 0 && places_left != 0
        invariant
            left < divisor,
            line@ + fraction_digits(left as nat, divisor as nat, places_left as nat) == old(line)@
                + fraction_digits(remainder as nat, divisor as nat, places as nat),
        decreases places_left,
    {
        let scaled: u64 = left as u64 * 10;
        let digit: u64 = scaled / divisor as u64;
        let rest: u64 = scaled % divisor as u64;
        assert(digit < 10) by (nonlinear_arith)
            requires
                digit == scaled / divisor as u64,
                scaled < divisor * 10,
                divisor > 0,
        ;
        let ghost before = line@;
        line.append(digit_text(digit as u8));
        assert(line@ + fraction_digits(rest as nat, divisor as nat, (places_left - 1) as nat) =~= before
            + fraction_digits(left as nat, divisor as nat, places_left as nat));
        left = rest as u32;
        places_left = places_left - 1;
    }
    assert(line@ + Seq::<char>::empty() =~= line@);
}

/// Appends the decimal text of a fixed-point quantity to `line`.
pub fn push_scaled(line: &mut String, quantity: Scaled)
    ensures
        final(line)@ == old(line)@ + scaled_text(quantity),
{
    let divisor = quantity.scale.divisor();
    let size: u32 = if quantity.raw < 0 {
        line.append("-");
        (-(quantity.raw as i64)) as u32
    } else {
        quantity.raw as u32
    };
    let remainder = size % divisor;
    push_decimal(line, size / divisor);
    if remainder != 0 {
        line.append(".");
    }
    push_fraction(line, remainder, divisor, quantity.scale.places());
    assert(final(line)@ =~= old(line)@ + scaled_text(quantity));
}

} // verus!

//! Rendering of numbers and durations as text.
//!
//! Everything here is stated over `Seq<char>`: a spec function says what the
//! text is, and the executable function builds a `String` whose view is
//! exactly that sequence.

use vstd::prelude::*;
use vstd::string::StringExecFns;

verus! {

/// The character that stands for the decimal digit `d`.
pub open spec fn digit_char(d: nat) -> char
    recommends
        d < 10,
{
    if d == 0 {
        '0'
    } else if d == 1 {
        '1'
    } else if d == 2 {
        '2'
    } else if d == 3 {
        '3'
    } else if d == 4 {
        '4'
    } else if d == 5 {
        '5'
    } else if d == 6 {
        '6'
    } else if d == 7 {
        '7'
    } else if d == 8 {
        '8'
    } else {
        '9'
    }
}

/// The decimal numeral of `n`: most significant digit first, no leading zero
/// except for zero itself.
pub open spec fn decimal(n: nat) -> Seq<char>
    decreases n,
{
    if n < 10 {
        seq![digit_char(n)]
    } else {
        decimal(n / 10).push(digit_char(n % 10))
    }
}

/// The digits of `part / (10 * scale)` as a decimal fraction, most significant
/// first, stopping as soon as nothing but zeros would follow.
///
/// `scale` is the weight of the first digit: with `part < 10 * scale` the
/// result has at most as many digits as `10 * scale` has zeros.
pub open spec fn fraction_digits(part: nat, scale: nat) -> Seq<char>
    decreases scale,
{
    if part == 0 || scale == 0 {
        Seq::<char>::empty()
    } else {
        seq![digit_char(part / scale)] + fraction_digits(part % scale, scale / 10)
    }
}

/// `whole`, followed by a point and the fraction `part / (10 * scale)` when
/// that fraction is not zero.
pub open spec fn decimal_with_fraction(whole: nat, part: nat, scale: nat) -> Seq<char> {
    if part == 0 {
        decimal(whole)
    } else {
        decimal(whole) + seq!['.'] + fraction_digits(part, scale)
    }
}

/// Nanoseconds in a second.
pub const NANOS_PER_SECOND: u128 = 1_000_000_000;

/// Nanoseconds in a millisecond.
pub const NANOS_PER_MILLI: u128 = 1_000_000;

/// Nanoseconds in a microsecond.
pub const NANOS_PER_MICRO: u128 = 1_000;

/// A length of time given in nanoseconds, written in the largest unit that
/// leaves a whole part of at least one: seconds (`s`), milliseconds (`ms`),
/// microseconds (`µs`) or nanoseconds (`ns`). The rest follows the point with
/// trailing zeros dropped, so 1 500 000 000 ns reads `1.5s` and 120 000 000 ns
/// reads `120ms`.
pub open spec fn duration_text(nanos: nat) -> Seq<char> {
    if nanos >= 1_000_000_000 {
        decimal_with_fraction(nanos / 1_000_000_000, nanos % 1_000_000_000, 100_000_000)
            + seq!['s']
    } else if nanos >= 1_000_000 {
        decimal_with_fraction(nanos / 1_000_000, nanos % 1_000_000, 100_000) + seq!['m', 's']
    } else if nanos >= 1_000 {
        decimal_with_fraction(nanos / 1_000, nanos % 1_000, 100) + seq!['\u{b5}', 's']
    } else {
        decimal(nanos) + seq!['n', 's']
    }
}

/// The one-character text of a decimal digit.
fn digit_text(d: u8) -> (text: &'static str)
    requires
        d < 10,
    ensures
        text@ == seq![digit_char(d as nat)],
{
    proof {
        reveal_strlit("0");
        reveal_strlit("1");
        reveal_strlit("2");
        reveal_strlit("3");
        reveal_strlit("4");
        reveal_strlit("5");
        reveal_strlit("6");
        reveal_strlit("7");
        reveal_strlit("8");
        reveal_strlit("9");
    }
    let text = if d == 0 {
        "0"
    } else if d == 1 {
        "1"
    } else if d == 2 {
        "2"
    } else if d == 3 {
        "3"
    } else if d == 4 {
        "4"
    } else if d == 5 {
        "5"
    } else if d == 6 {
        "6"
    } else if d == 7 {
        "7"
    } else if d == 8 {
        "8"
    } else {
        "9"
    };
    assert(text@ =~= seq![digit_char(d as nat)]);
    text
}

/// Appends the decimal numeral of `n` to `out`.
pub fn push_decimal(out: &mut String, n: u128)
    ensures
        final(out)@ == old(out)@ + decimal(n as nat),
    decreases n,
{
    if n >= 10 {
        push_decimal(out, n / 10);
    }
    let digit: u8 = (n % 10) as u8;
    out.append(digit_text(digit));
    proof {
        if n >= 10 {
            assert(final(out)@ =~= old(out)@ + decimal((n / 10) as nat).push(
                digit_char((n % 10) as nat),
            ));
        } else {
            assert(final(out)@ =~= old(out)@ + seq![digit_char(n as nat)]);
        }
    }
}

/// The decimal numeral of `n`.
pub fn decimal_text(n: u128) -> (text: String)
    ensures
        text@ == decimal(n as nat),
{
    let mut text = String::new();
    push_decimal(&mut text, n);
    assert(text@ =~= decimal(n as nat));
    text
}

/// Whether `n` is one of 1, 10, 100, ...
pub open spec fn is_power_of_ten(n: nat) -> bool
    decreases n,
{
    n == 1 || (n >= 10 && n % 10 == 0 && is_power_of_ten(n / 10))
}

/// Appends the fraction digits of `part` at weight `scale` to `out`.
fn push_fraction_digits(out: &mut String, part: u128, scale: u128)
    requires
        is_power_of_ten(scale as nat),
        part < 10 * scale,
    ensures
        final(out)@ == old(out)@ + fraction_digits(part as nat, scale as nat),
{
    let ghost start = out@;
    let mut rest: u128 = part;
    let mut weight: u128 = scale;
    while rest > 0
        invariant
            weight == 0 ==> rest == 0,
            weight > 0 ==> is_power_of_ten(weight as nat) && rest < 10 * weight,
            out@ + fraction_digits(rest as nat, weight as nat) == start + fraction_digits(
                part as nat,
                scale as nat,
            ),
        decreases weight,
    {
        let ghost before = out@;
        assert(rest / weight < 10) by (nonlinear_arith)
            requires
                rest < 10 * weight,
                weight > 0,
        ;
        let digit: u8 = (rest / weight) as u8;
        out.append(digit_text(digit));
        proof {
            assert(out@ + fraction_digits((rest % weight) as nat, (weight / 10) as nat) =~= before
                + fraction_digits(rest as nat, weight as nat));
        }
        rest = rest % weight;
        weight = weight / 10;
    }
    assert(out@ =~= start + fraction_digits(part as nat, scale as nat));
}

/// Appends `whole`, and the fraction `part / (10 * scale)` behind a point when
/// it is not zero.
fn push_decimal_with_fraction(out: &mut String, whole: u128, part: u128, scale: u128)
    requires
        is_power_of_ten(scale as nat),
        part < 10 * scale,
    ensures
        final(out)@ == old(out)@ + decimal_with_fraction(whole as nat, part as nat, scale as nat),
{
    push_decimal(out, whole);
    if part > 0 {
        proof {
            reveal_strlit(".");
        }
        out.append(".");
        push_fraction_digits(out, part, scale);
        assert(out@ =~= old(out)@ + (decimal(whole as nat) + seq!['.'] + fraction_digits(
            part as nat,
            scale as nat,
        ))) by {
            assert("."@ =~= seq!['.']);
        }
    }
}

/// Appends the text of a length of time, given in nanoseconds, to `out`.
pub fn push_duration(out: &mut String, nanos: u128)
    ensures
        final(out)@ == old(out)@ + duration_text(nanos as nat),
{
    proof {
        reveal_strlit("s");
        reveal_strlit("ms");
        reveal_strlit("\u{b5}s");
        reveal_strlit("ns");
        assert("s"@ =~= seq!['s']);
        assert("ms"@ =~= seq!['m', 's']);
        assert("\u{b5}s"@ =~= seq!['\u{b5}', 's']);
        assert("ns"@ =~= seq!['n', 's']);
        assert(is_power_of_ten(100) && is_power_of_ten(100_000) && is_power_of_ten(100_000_000))
            by {
            reveal_with_fuel(is_power_of_ten, 10);
        }
    }
    if nanos >= NANOS_PER_SECOND {
        push_decimal_with_fraction(
            out,
            nanos / NANOS_PER_SECOND,
            nanos % NANOS_PER_SECOND,
            100_000_000,
        );
        out.append("s");
    } else if nanos >= NANOS_PER_MILLI {
        push_decimal_with_fraction(out, nanos / NANOS_PER_MILLI, nanos % NANOS_PER_MILLI, 100_000);
        out.append("ms");
    } else if nanos >= NANOS_PER_MICRO {
        push_decimal_with_fraction(out, nanos / NANOS_PER_MICRO, nanos % NANOS_PER_MICRO, 100);
        out.append("\u{b5}s");
    } else {
        push_decimal(out, nanos);
        out.append("ns");
    }
    assert(final(out)@ =~= old(out)@ + duration_text(nanos as nat));
}

/// The text of a length of time given in nanoseconds.
pub fn duration_to_text(nanos: u128) -> (text: String)
    ensures
        text@ == duration_text(nanos as nat),
{
    let mut text = String::new();
    push_duration(&mut text, nanos);
    assert(text@ =~= duration_text(nanos as nat));
    text
}

} // verus!

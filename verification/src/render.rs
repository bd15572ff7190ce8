//! Rendering a measured duration as the user-visible report line
//! `<label>\t<minutes>m<seconds with three decimal places>s`.

use vstd::prelude::*;

verus! {

/// The decimal digit character for a value below ten.
pub open spec fn digit_char(d: int) -> char
    recommends
        0 <= d <= 9,
{
    if d == 0 {
        '0'
    } else if d == 1 {
        '1'
    } else if d == 2 {
        '2'
    } else if d == 3 {
        '3'
    } else if d == 4 {
        '4'
    } else if d == 5 {
        '5'
    } else if d == 6 {
        '6'
    } else if d == 7 {
        '7'
    } else if d == 8 {
        '8'
    } else {
        '9'
    }
}

/// The decimal digits of a non-negative number, most significant first, with
/// no leading zero except for the number zero itself.
pub open spec fn spec_decimal(n: int) -> Seq<char>
    recommends
        n >= 0,
    decreases n,
{
    if n < 10 {
        seq![digit_char(n)]
    } else {
        spec_decimal(n / 10) + seq![digit_char(n % 10)]
    }
}

/// A millisecond count below one thousand, widened to exactly three digits
/// with leading zeroes: the fractional part of a seconds display.
pub open spec fn spec_three_digits(n: int) -> Seq<char>
    recommends
        0 <= n < 1000,
{
    if n < 10 {
        seq!['0', '0'] + spec_decimal(n)
    } else if n < 100 {
        seq!['0'] + spec_decimal(n)
    } else {
        spec_decimal(n)
    }
}

/// The report line for a labelled duration of `millis` milliseconds: the
/// label, a tab, whole minutes, `m`, the remaining seconds with exactly three
/// decimal places, and `s`.
pub open spec fn spec_duration_line(label: Seq<char>, millis: int) -> Seq<char>
    recommends
        millis >= 0,
{
    label + seq!['\t'] + spec_decimal(millis / 60000) + seq!['m'] + spec_decimal(
        (millis % 60000) / 1000,
    ) + seq!['.'] + spec_three_digits(millis % 1000) + seq!['s']
}

/// The decimal digit of a value below ten, as a string slice.
fn digit_str(d: u64) -> (r: &'static str)
    requires
        d <= 9,
    ensures
        r@ == seq![digit_char(d as int)],
{
    proof {
        reveal_strlit("0");
        reveal_strlit("1");
        reveal_strlit("2");
        reveal_strlit("3");
        reveal_strlit("4");
        reveal_strlit("5");
        reveal_strlit("6");
        reveal_strlit("7");
        reveal_strlit("8");
        reveal_strlit("9");
    }
    let r = match d {
        0 => "0",
        1 => "1",
        2 => "2",
        3 => "3",
        4 => "4",
        5 => "5",
        6 => "6",
        7 => "7",
        8 => "8",
        _ => "9",
    };
    proof {
        assert(r@ =~= seq![digit_char(d as int)]);
    }
    r
}

/// The decimal digits of a number, most significant first.
pub fn decimal_string(n: u64) -> (r: String)
    ensures
        r@ == spec_decimal(n as int),
    decreases n,
{
    if n < 10 {
        String::from_str(digit_str(n))
    } else {
        let mut r = decimal_string(n / 10);
        r.append(digit_str(n % 10));
        r
    }
}

/// A millisecond count below one thousand as exactly three digits.
fn three_digits(n: u64) -> (r: String)
    requires
        n < 1000,
    ensures
        r@ == spec_three_digits(n as int),
{
    proof {
        reveal_strlit("0");
        reveal_strlit("00");
    }
    if n < 10 {
        let mut r = String::from_str("00");
        r.append(decimal_string(n).as_str());
        proof {
            assert(r@ =~= spec_three_digits(n as int));
        }
        r
    } else if n < 100 {
        let mut r = String::from_str("0");
        r.append(decimal_string(n).as_str());
        proof {
            assert(r@ =~= spec_three_digits(n as int));
        }
        r
    } else {
        decimal_string(n)
    }
}

/// The report line for a labelled duration: minutes, then seconds with three
/// decimal places, as in `real\t1m2.034s` for one minute and 2034
/// milliseconds.
pub fn duration_line(label: &str, millis: u64) -> (r: String)
    ensures
        r@ == spec_duration_line(label@, millis as int),
{
    proof {
        reveal_strlit("\t");
        reveal_strlit("m");
        reveal_strlit(".");
        reveal_strlit("s");
    }
    let minutes = millis / 60000;
    let seconds = (millis % 60000) / 1000;
    let fraction = millis % 1000;
    let mut r = String::from_str(label);
    r.append("\t");
    r.append(decimal_string(minutes).as_str());
    r.append("m");
    r.append(decimal_string(seconds).as_str());
    r.append(".");
    r.append(three_digits(fraction).as_str());
    r.append("s");
    proof {
        assert(r@ =~= spec_duration_line(label@, millis as int));
    }
    r
}

} // verus!

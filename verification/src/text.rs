//! Verified text projections: decimal rendering of counters, the `M:SS`
//! duration format of queue rows, and the queue summary lines.

use vstd::prelude::*;

verus! {

/// The decimal digit character for `d` in `0..=9`.
pub open spec fn digit_char(d: int) -> char {
    if d == 0 {
        '0'
    } else if d == 1 {
        '1'
    } else if d == 2 {
        '2'
    } else if d == 3 {
        '3'
    } else if d == 4 {
        '4'
    } else if d == 5 {
        '5'
    } else if d == 6 {
        '6'
    } else if d == 7 {
        '7'
    } else if d == 8 {
        '8'
    } else {
        '9'
    }
}

/// The decimal rendering of a non-negative integer, most significant digit
/// first, without leading zeroes (except for the number 0 itself).
pub open spec fn spec_decimal(n: int) -> Seq<char>
    decreases n,
{
    if n < 10 {
        seq![digit_char(n)]
    } else {
        spec_decimal(n / 10) + seq![digit_char(n % 10)]
    }
}

/// The decimal rendering of a second count in `0..60`, padded to two digits.
pub open spec fn spec_two_digits(s: int) -> Seq<char> {
    if s < 10 {
        seq!['0'] + seq![digit_char(s)]
    } else {
        spec_decimal(s)
    }
}

/// The `M:SS` rendering of a duration in seconds: whole minutes, a colon,
/// then the remaining seconds padded to two digits.
pub open spec fn spec_duration_text(d: int) -> Seq<char> {
    spec_decimal(d / 60) + seq![':'] + spec_two_digits(d % 60)
}

/// The queue summary line "N queued".
pub open spec fn spec_queued_text(n: int) -> Seq<char> {
    spec_decimal(n) + " queued"@
}

/// The queue summary line "track X of Y selected".
pub open spec fn spec_selected_text(x: int, y: int) -> Seq<char> {
    "track "@ + spec_decimal(x) + " of "@ + spec_decimal(y) + " selected"@
}

/// The one-character string for a single decimal digit.
fn digit_str(d: u32) -> (r: &'static str)
    requires
        d < 10,
    ensures
        r@ == seq![digit_char(d as int)],
{
    let r: &'static str = match d {
        0 => "0",
        1 => "1",
        2 => "2",
        3 => "3",
        4 => "4",
        5 => "5",
        6 => "6",
        7 => "7",
        8 => "8",
        _ => "9",
    };
    proof {
        reveal_strlit("0");
        reveal_strlit("1");
        reveal_strlit("2");
        reveal_strlit("3");
        reveal_strlit("4");
        reveal_strlit("5");
        reveal_strlit("6");
        reveal_strlit("7");
        reveal_strlit("8");
        reveal_strlit("9");
        assert(r@ =~= seq![digit_char(d as int)]);
    }
    r
}

/// Renders a counter in decimal, as `spec_decimal` describes.
pub fn u32_to_string(n: u32) -> (r: String)
    ensures
        r@ == spec_decimal(n as int),
    decreases n,
{
    if n < 10 {
        String::from_str(digit_str(n))
    } else {
        let mut s = u32_to_string(n / 10);
        s.append(digit_str(n % 10));
        s
    }
}

/// Renders a duration in seconds as `M:SS`.
pub fn format_duration(d: u32) -> (r: String)
    ensures
        r@ == spec_duration_text(d as int),
{
    let mut s = u32_to_string(d / 60);
    s.append(":");
    if d % 60 < 10 {
        s.append("0");
    }
    let rest = u32_to_string(d % 60);
    s.append(rest.as_str());
    proof {
        reveal_strlit(":");
        reveal_strlit("0");
        assert(s@ =~= spec_duration_text(d as int));
    }
    s
}

/// Renders the "N queued" summary line.
pub fn queued_text(n: u32) -> (r: String)
    ensures
        r@ == spec_queued_text(n as int),
{
    let r = u32_to_string(n).concat(" queued");
    proof {
        assert(r@ =~= spec_queued_text(n as int));
    }
    r
}

/// Renders the "track X of Y selected" summary line.
pub fn selected_text(x: u32, y: u32) -> (r: String)
    ensures
        r@ == spec_selected_text(x as int, y as int),
{
    let mut s = String::from_str("track ");
    let xs = u32_to_string(x);
    s.append(xs.as_str());
    s.append(" of ");
    let ys = u32_to_string(y);
    s.append(ys.as_str());
    s.append(" selected");
    proof {
        assert(s@ =~= spec_selected_text(x as int, y as int));
    }
    s
}

} // verus!

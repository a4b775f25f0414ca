//! Small verified text helpers: decimal rendering for messages and the
//! progress clock, list-entry truncation, and the equalizer glyphs.

use vstd::prelude::*;
use vstd::string::*;

verus! {

/// The decimal digit character for one digit value.
pub open spec fn digit_char(d: int) -> char {
    if d == 0 { '0' }
    else if d == 1 { '1' }
    else if d == 2 { '2' }
    else if d == 3 { '3' }
    else if d == 4 { '4' }
    else if d == 5 { '5' }
    else if d == 6 { '6' }
    else if d == 7 { '7' }
    else if d == 8 { '8' }
    else { '9' }
}

/// The decimal rendering of a number, most significant digit first, with
/// no leading zeros (a single zero for zero itself).
pub open spec fn spec_dec(n: nat) -> Seq<char>
    decreases n,
{
    if n < 10 {
        seq![digit_char(n as int)]
    } else {
        spec_dec(n / 10).push(digit_char((n % 10) as int))
    }
}

/// The decimal rendering padded on the left with a zero to at least two
/// digits, as seconds are shown on a clock.
pub open spec fn spec_two_dec(n: nat) -> Seq<char> {
    if n < 10 {
        seq!['0'] + spec_dec(n)
    } else {
        spec_dec(n)
    }
}

/// A second count rendered as `M:SS`.
pub open spec fn spec_clock(total_secs: nat) -> Seq<char> {
    spec_dec(total_secs / 60) + seq![':'] + spec_two_dec(total_secs % 60)
}

/// The one-character string for one digit value.
fn digit_str(d: u64) -> (r: &'static str)
    requires
        d < 10,
    ensures
        r@ == seq![digit_char(d as int)],
{
    proof {
        reveal_strlit("0");
        reveal_strlit("1");
        reveal_strlit("2");
        reveal_strlit("3");
        reveal_strlit("4");
        reveal_strlit("5");
        reveal_strlit("6");
        reveal_strlit("7");
        reveal_strlit("8");
        reveal_strlit("9");
    }
    match d {
        0 => "0",
        1 => "1",
        2 => "2",
        3 => "3",
        4 => "4",
        5 => "5",
        6 => "6",
        7 => "7",
        8 => "8",
        _ => "9",
    }
}

/// Render a number in decimal.
pub fn dec_str(n: u64) -> (r: String)
    ensures
        r@ == spec_dec(n as nat),
    decreases n,
{
    if n < 10 {
        String::from_str(digit_str(n))
    } else {
        let mut r = dec_str(n / 10);
        r.append(digit_str(n % 10));
        proof {
            assert(r@ =~= spec_dec(n as nat));
        }
        r
    }
}

/// Render a number in decimal, zero-padded to at least two digits.
pub fn two_dec_str(n: u64) -> (r: String)
    ensures
        r@ == spec_two_dec(n as nat),
{
    if n < 10 {
        let mut r = String::from_str("0");
        r.append(digit_str(n));
        proof {
            reveal_strlit("0");
            assert(r@ =~= spec_two_dec(n as nat));
        }
        r
    } else {
        dec_str(n)
    }
}

/// Render a second count as `M:SS`.
pub fn clock_str(total_secs: u32) -> (r: String)
    ensures
        r@ == spec_clock(total_secs as nat),
{
    let mut r = dec_str((total_secs / 60) as u64);
    r.append(":");
    let secs = two_dec_str((total_secs % 60) as u64);
    r.append(secs.as_str());
    proof {
        reveal_strlit(":");
        assert(r@ =~= spec_clock(total_secs as nat));
    }
    r
}

/// Where a too-long entry is cut so the ellipsis still fits.
pub open spec fn trunc_at(max: nat) -> nat {
    if max == 0 { 0 } else { (max - 1) as nat }
}

/// Shorten a list entry to a display width: entries that fit are kept
/// whole, longer ones are cut one short of the width and get an ellipsis.
pub fn truncate_str(s: &str, max: usize) -> (r: String)
    ensures
        s@.len() <= max ==> r@ == s@,
        s@.len() > max ==> r@ == s@.take(trunc_at(max as nat) as int) + seq!['…'],
{
    let n = s.unicode_len();
    if n <= max {
        s.to_owned()
    } else {
        let keep = if max == 0 { 0 } else { max - 1 };
        let mut r = String::from_str(s.substring_char(0, keep));
        r.append("…");
        proof {
            reveal_strlit("…");
            assert(r@ =~= s@.take(trunc_at(max as nat) as int) + seq!['…']);
        }
        r
    }
}

/// The cell drawn for an equalizer bar of a given height at a given row,
/// counting rows from the bottom: a full block below the bar's height, a
/// blank above it.
pub fn bar_block(height: u8, row_from_bottom: u8) -> (r: &'static str)
    ensures
        height > row_from_bottom ==> r@ == "█"@,
        height <= row_from_bottom ==> r@ == " "@,
{
    if height > row_from_bottom {
        "█"
    } else {
        " "
    }
}

/// The one-cell glyph for an equalizer bar of a given height.
pub open spec fn spec_bar_char(height: u8) -> Seq<char> {
    if height <= 1 { "▁"@ }
    else if height == 2 { "▂"@ }
    else if height == 3 { "▃"@ }
    else if height == 4 { "▄"@ }
    else if height == 5 { "▅"@ }
    else if height == 6 { "▆"@ }
    else if height == 7 { "▇"@ }
    else { "█"@ }
}

/// Pick the glyph whose fill matches the bar height, saturating at the
/// full block.
pub fn bar_char(height: u8) -> (r: &'static str)
    ensures
        r@ == spec_bar_char(height),
{
    if height <= 1 { "▁" }
    else if height == 2 { "▂" }
    else if height == 3 { "▃" }
    else if height == 4 { "▄" }
    else if height == 5 { "▅" }
    else if height == 6 { "▆" }
    else if height == 7 { "▇" }
    else { "█" }
}

/// Relies on std's String::push: appends the one character to the string.
#[verifier::external_body]
pub(crate) fn push_char(s: &mut String, c: char)
    ensures
        final(s)@ == old(s)@.push(c),
{
    s.push(c);
}

/// Relies on std's String::pop: removes and returns the last character,
/// or does nothing on an empty string.
#[verifier::external_body]
pub(crate) fn pop_char(s: &mut String) -> (r: Option<char>)
    ensures
        old(s)@.len() == 0 ==> final(s)@ == old(s)@ && r is None,
        old(s)@.len() > 0 ==> final(s)@ == old(s)@.drop_last() && r == Some(old(s)@.last()),
{
    s.pop()
}

} // verus!

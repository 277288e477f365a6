//! What is shown apart from how it is drawn: the check of the terminal's
//! size.

use crate::constants::{MIN_TERM_HEIGHT, MIN_TERM_WIDTH};
use crate::text::push_char;
use vstd::prelude::*;
use vstd::string::*;

verus! {

/// The character of the digit `d`.
pub open spec fn digit(d: nat) -> char
    recommends
        d < 10,
{
    (48 + d) as u8 as char
}

/// `n` written in decimal digits.
pub open spec fn decimal(n: nat) -> Seq<char>
    decreases n,
{
    if n < 10 {
        seq![digit(n)]
    } else {
        decimal(n / 10).push(digit(n % 10))
    }
}

/// What the check of a terminal of `width` columns and `height` rows
/// says: that it is too narrow, else that it is too low, else that the
/// size is as it should be.
pub open spec fn size_report(width: u16, height: u16) -> Seq<char> {
    if width < MIN_TERM_WIDTH {
        "For optimal viewing experience, Terminal width should be >= "@ + decimal(
            MIN_TERM_WIDTH as nat,
        ) + ", (current "@ + decimal(width as nat) + ")"@
    } else if height < MIN_TERM_HEIGHT {
        "For optimal viewing experience, Terminal height should be >= "@ + decimal(
            MIN_TERM_HEIGHT as nat,
        ) + ", (current "@ + decimal(height as nat) + ")"@
    } else {
        "Size OK"@
    }
}

/// Appends `n`, written in decimal digits, to `text`.
pub fn push_decimal(text: &mut String, n: u16)
    ensures
        final(text)@ == old(text)@ + decimal(n as nat),
    decreases n,
{
    if n >= 10 {
        push_decimal(text, n / 10);
    }
    let d: u8 = (n % 10) as u8;
    push_char(text, (48u8 + d) as char);
}

fn too_small(what: &str, least: u16, current: u16) -> (report: String)
    ensures
        report@ == what@ + decimal(least as nat) + ", (current "@ + decimal(current as nat) + ")"@,
{
    let mut report = String::from_str(what);
    push_decimal(&mut report, least);
    report.append(", (current ");
    push_decimal(&mut report, current);
    report.append(")");
    report
}

/// Checks the size of the terminal: `Size OK`, or what it should be.
pub fn check_size(width: u16, height: u16) -> (report: String)
    ensures
        report@ == size_report(width, height),
{
    if width < MIN_TERM_WIDTH {
        too_small(
            "For optimal viewing experience, Terminal width should be >= ",
            MIN_TERM_WIDTH,
            width,
        )
    } else if height < MIN_TERM_HEIGHT {
        too_small(
            "For optimal viewing experience, Terminal height should be >= ",
            MIN_TERM_HEIGHT,
            height,
        )
    } else {
        String::from_str("Size OK")
    }
}

} // verus!

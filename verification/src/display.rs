//! How the readings are written out for the operator. A reading that was
//! never taken shows as a placeholder.

use crate::text::{digit, digits, render_natural};
use vstd::prelude::*;
use vstd::string::*;

verus! {

/// What stands in place of a reading that was never taken.
pub open spec fn placeholder_text() -> Seq<char> {
    "---"@
}

/// A voltage of `tenths` tenths of a volt: the volts, one decimal and the unit.
pub open spec fn volts_text(tenths: nat) -> Seq<char> {
    digits(tenths / 10) + "."@ + digits(tenths % 10) + "V"@
}

/// A voltage reading on display.
pub open spec fn voltage_text(reading: Option<u16>) -> Seq<char> {
    match reading {
        Some(tenths) => volts_text(tenths as nat),
        None => placeholder_text(),
    }
}

/// An encoder count on display.
pub open spec fn count_text(reading: Option<u32>) -> Seq<char> {
    match reading {
        Some(count) => digits(count as nat),
        None => placeholder_text(),
    }
}

/// The character that stands for a single hexadecimal digit, in upper case.
pub open spec fn hex_digit(d: int) -> char {
    if d < 10 {
        digit(d)
    } else if d == 10 {
        'A'
    } else if d == 11 {
        'B'
    } else if d == 12 {
        'C'
    } else if d == 13 {
        'D'
    } else if d == 14 {
        'E'
    } else {
        'F'
    }
}

/// A register of sixteen bits as read: four hexadecimal digits after `0x`.
pub open spec fn flags_text(flags: u16) -> Seq<char> {
    "0x"@ + seq![
        hex_digit(flags as int / 4096),
        hex_digit(flags as int / 256 % 16),
        hex_digit(flags as int / 16 % 16),
        hex_digit(flags as int % 16),
    ]
}

/// Writes a voltage reading, or the placeholder.
pub fn render_voltage(reading: Option<u16>) -> (text: String)
    ensures
        text@ == voltage_text(reading),
{
    match reading {
        Some(tenths) => {
            let mut text = render_natural((tenths / 10) as u32);
            text.append(".");
            text.append(render_natural((tenths % 10) as u32).as_str());
            text.append("V");
            text
        },
        None => String::from_str("---"),
    }
}

/// Writes an encoder count, or the placeholder.
pub fn render_count(reading: Option<u32>) -> (text: String)
    ensures
        text@ == count_text(reading),
{
    match reading {
        Some(count) => render_natural(count),
        None => String::from_str("---"),
    }
}

/// The one-character text of a hexadecimal digit.
fn hex_digit_text(d: u16) -> (text: &'static str)
    requires
        d < 16,
    ensures
        text@ == seq![hex_digit(d as int)],
{
    proof {
        reveal_strlit("0");
        reveal_strlit("1");
        reveal_strlit("2");
        reveal_strlit("3");
        reveal_strlit("4");
        reveal_strlit("5");
        reveal_strlit("6");
        reveal_strlit("7");
        reveal_strlit("8");
        reveal_strlit("9");
        reveal_strlit("A");
        reveal_strlit("B");
        reveal_strlit("C");
        reveal_strlit("D");
        reveal_strlit("E");
        reveal_strlit("F");
    }
    let text = if d == 0 {
        "0"
    } else if d == 1 {
        "1"
    } else if d == 2 {
        "2"
    } else if d == 3 {
        "3"
    } else if d == 4 {
        "4"
    } else if d == 5 {
        "5"
    } else if d == 6 {
        "6"
    } else if d == 7 {
        "7"
    } else if d == 8 {
        "8"
    } else if d == 9 {
        "9"
    } else if d == 10 {
        "A"
    } else if d == 11 {
        "B"
    } else if d == 12 {
        "C"
    } else if d == 13 {
        "D"
    } else if d == 14 {
        "E"
    } else {
        "F"
    };
    assert(text@ =~= seq![hex_digit(d as int)]);
    text
}

/// Writes a register as read.
pub fn render_flags(flags: u16) -> (text: String)
    ensures
        text@ == flags_text(flags),
{
    let mut text = String::from_str("0x");
    text.append(hex_digit_text(flags / 4096));
    text.append(hex_digit_text(flags / 256 % 16));
    text.append(hex_digit_text(flags / 16 % 16));
    text.append(hex_digit_text(flags % 16));
    assert(text@ =~= flags_text(flags));
    text
}

} // verus!

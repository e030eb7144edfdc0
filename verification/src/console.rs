//! The text of the diagnostic stream.
//!
//! One line reports one tick: `btn: <level> | cnt: <counter> | state: <name>`,
//! each field left-aligned in a fixed width so that the columns line up, and
//! ended by a carriage return and a line feed.

use vstd::prelude::*;
use vstd::string::*;

use crate::state::State;

verus! {

/// `n` blanks.
pub open spec fn spaces(n: nat) -> Seq<char> {
    Seq::new(n, |i: int| ' ')
}

/// `text`, filled up with blanks on the right to `width` characters. A text
/// that is already that long stays as it is.
pub open spec fn pad_right(text: Seq<char>, width: nat) -> Seq<char> {
    if text.len() >= width {
        text
    } else {
        text + spaces((width - text.len()) as nat)
    }
}

/// How a button level is written.
pub open spec fn bool_text(b: bool) -> Seq<char> {
    if b {
        "true"@
    } else {
        "false"@
    }
}

/// The character of one decimal digit.
pub open spec fn digit_text(d: nat) -> Seq<char> {
    if d == 0 {
        "0"@
    } else if d == 1 {
        "1"@
    } else if d == 2 {
        "2"@
    } else if d == 3 {
        "3"@
    } else if d == 4 {
        "4"@
    } else if d == 5 {
        "5"@
    } else if d == 6 {
        "6"@
    } else if d == 7 {
        "7"@
    } else if d == 8 {
        "8"@
    } else {
        "9"@
    }
}

/// A number in decimal, without leading zeros.
pub open spec fn decimal_text(n: nat) -> Seq<char>
    decreases n,
{
    if n < 10 {
        digit_text(n)
    } else {
        decimal_text(n / 10) + digit_text(n % 10)
    }
}

/// The line that reports one tick.
pub open spec fn diagnostic_text(pressed: bool, counter: nat, state: State) -> Seq<char> {
    "btn: "@ + pad_right(bool_text(pressed), 5) + " | cnt: "@ + pad_right(decimal_text(counter), 2)
        + " | state: "@ + pad_right(state.name_text(), 8) + "\r\n"@
}

/// The line that reports a fatal fault.
pub open spec fn fatal_text(description: Seq<char>) -> Seq<char> {
    "PANIC: "@ + description
}

fn bool_str(b: bool) -> (r: &'static str)
    ensures
        r@ == bool_text(b),
{
    if b {
        "true"
    } else {
        "false"
    }
}

fn digit_str(d: u8) -> (r: &'static str)
    requires
        d < 10,
    ensures
        r@ == digit_text(d as nat),
{
    if d == 0 {
        "0"
    } else if d == 1 {
        "1"
    } else if d == 2 {
        "2"
    } else if d == 3 {
        "3"
    } else if d == 4 {
        "4"
    } else if d == 5 {
        "5"
    } else if d == 6 {
        "6"
    } else if d == 7 {
        "7"
    } else if d == 8 {
        "8"
    } else {
        "9"
    }
}

/// Writes a number in decimal.
pub fn decimal(n: u8) -> (r: String)
    ensures
        r@ == decimal_text(n as nat),
{
    let mut r = String::new();
    if n >= 100 {
        r.append(digit_str(n / 100));
    }
    if n >= 10 {
        r.append(digit_str((n / 10) % 10));
    }
    r.append(digit_str(n % 10));
    proof {
        reveal_with_fuel(decimal_text, 3);
        assert(r@ =~= decimal_text(n as nat));
    }
    r
}

/// Fills a text up with blanks on the right to `width` characters.
pub fn padded(text: &str, width: usize) -> (r: String)
    ensures
        r@ == pad_right(text@, width as nat),
{
    let mut r = String::from_str(text);
    let len = text.unicode_len();
    if len >= width {
        return r;
    }
    let mut i: usize = len;
    while i < width
        invariant
            len <= i <= width,
            len == text@.len(),
            r@ == text@ + spaces((i - len) as nat),
        decreases width - i,
    {
        r.append(" ");
        proof {
            reveal_strlit(" ");
            assert(" "@ =~= seq![' ']);
            assert(r@ =~= text@ + spaces((i + 1 - len) as nat));
        }
        i = i + 1;
    }
    r
}

/// Writes the line that reports one tick: the button level, the counter and
/// the name of the state.
pub fn diagnostic_line(pressed: bool, counter: u8, state: State) -> (line: String)
    ensures
        line@ == diagnostic_text(pressed, counter as nat, state),
{
    let mut line = String::from_str("btn: ");
    let level = padded(bool_str(pressed), 5);
    line.append(level.as_str());
    line.append(" | cnt: ");
    let digits = decimal(counter);
    let count = padded(digits.as_str(), 2);
    line.append(count.as_str());
    line.append(" | state: ");
    let name = padded(state.name(), 8);
    line.append(name.as_str());
    line.append("\r\n");
    line
}

/// Writes the line that reports a fatal fault, without a line end.
pub fn fatal_line(description: &str) -> (line: String)
    ensures
        line@ == fatal_text(description@),
{
    let mut line = String::from_str("PANIC: ");
    line.append(description);
    line
}

} // verus!

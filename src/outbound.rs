//! Outbound messages: the text form of job statuses and results.

use vstd::prelude::*;
use vstd::string::*;
use crate::text::{digit_char, nat_text, push_decimal};
use crate::time::{instant_text, push_instant};

verus! {

/// A value sent to the client as a text message.
pub trait ToYaml {
    /// The message text.
    spec fn yaml_text(&self) -> Seq<char>;

    /// Renders the message.
    fn to_yaml(&self) -> (r: String)
        ensures
            r@ == self.yaml_text(),
    ;
}

/// The fields every job message starts with.
pub open spec fn common_text(start: int, source: Seq<char>, destination: Seq<char>, id: Seq<char>) -> Seq<char> {
    "id: "@ + id + "\nsource: "@ + source + "\ndestination: "@ + destination + "\nstart: "@
        + instant_text(start)
}

/// Appends the fields every job message starts with.
pub fn push_common(out: &mut String, start: i64, source: &str, destination: &str, id: &str)
    ensures
        final(out)@ == old(out)@ + common_text(start as int, source@, destination@, id@),
{
    out.append("id: ");
    out.append(id);
    out.append("\nsource: ");
    out.append(source);
    out.append("\ndestination: ");
    out.append(destination);
    out.append("\nstart: ");
    push_instant(out, start);
    assert(final(out)@ =~= old(out)@ + common_text(start as int, source@, destination@, id@));
}

/// The digits after the point of a fraction of ten-thousandths `f < 10000`,
/// without trailing zeros, and `0` for none.
pub open spec fn fraction_text(f: nat) -> Seq<char> {
    let d1 = digit_char(f / 1000);
    let d2 = digit_char((f / 100) % 10);
    let d3 = digit_char((f / 10) % 10);
    let d4 = digit_char(f % 10);
    if f % 10 != 0 {
        seq![d1, d2, d3, d4]
    } else if (f / 10) % 10 != 0 {
        seq![d1, d2, d3]
    } else if (f / 100) % 10 != 0 {
        seq![d1, d2]
    } else {
        seq![d1]
    }
}

/// A completed fraction in ten-thousandths as a decimal that always has a
/// point: 10000 is `1.0`, 5634 is `0.5634`, 0 is `0.0`.
pub open spec fn complete_text(c: nat) -> Seq<char> {
    nat_text(c / 10000) + "."@ + fraction_text(c % 10000)
}

fn digit(d: u64) -> (c: char)
    requires
        d < 10,
    ensures
        c == digit_char(d as nat),
{
    if d == 0 { '0' } else if d == 1 { '1' } else if d == 2 { '2' } else if d == 3 { '3' }
    else if d == 4 { '4' } else if d == 5 { '5' } else if d == 6 { '6' } else if d == 7 { '7' }
    else if d == 8 { '8' } else { '9' }
}

/// Appends the text of a completed fraction in ten-thousandths.
pub fn push_complete(out: &mut String, c: u64)
    ensures
        final(out)@ == old(out)@ + complete_text(c as nat),
{
    push_decimal(out, c / 10000);
    out.append(".");
    let f = c % 10000;
    out.push(digit(f / 1000));
    if (f / 100) % 10 != 0 || (f / 10) % 10 != 0 || f % 10 != 0 {
        out.push(digit((f / 100) % 10));
    }
    if (f / 10) % 10 != 0 || f % 10 != 0 {
        out.push(digit((f / 10) % 10));
    }
    if f % 10 != 0 {
        out.push(digit(f % 10));
    }
    assert(final(out)@ =~= old(out)@ + complete_text(c as nat));
}

/// The text of an optional value, `~` where it is absent.
pub open spec fn or_tilde(o: Option<Seq<char>>) -> Seq<char> {
    match o {
        Some(s) => s,
        None => "~"@,
    }
}

/// The text of a boolean.
pub open spec fn bool_text(b: bool) -> Seq<char> {
    if b {
        "true"@
    } else {
        "false"@
    }
}

/// Appends the text of a boolean.
pub fn push_bool(out: &mut String, b: bool)
    ensures
        final(out)@ == old(out)@ + bool_text(b),
{
    if b {
        out.append("true");
    } else {
        out.append("false");
    }
}

} // verus!

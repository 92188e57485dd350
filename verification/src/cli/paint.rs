//! Colors and columns of a terminal.

use vstd::prelude::*;

use crate::text;
use crate::text::{cat, chars_of};

verus! {

/// Decides whether colors are used. To switch them off goes before everything else.
pub fn color_enabled(no_color: bool, forced: bool, terminal: bool) -> (r: bool)
    ensures
        r == (!no_color && (forced || terminal)),
{
    if no_color {
        false
    } else if forced {
        true
    } else {
        terminal
    }
}

/// A text in a color, or as it is.
pub open spec fn painted(code: Seq<char>, text: Seq<char>, on: bool) -> Seq<char> {
    if on {
        code + text + "\x1b[0m"@
    } else {
        text
    }
}

/// Gives a text a color.
pub fn paint(code: &str, text: &str, on: bool) -> (r: String)
    ensures
        r@ == painted(code@, text@, on),
{
    if on {
        cat(cat(code, text).as_str(), "\x1b[0m")
    } else {
        text.to_owned()
    }
}

/// So many spaces.
pub open spec fn spaces(n: nat) -> Seq<char> {
    Seq::new(n, |i: int| ' ')
}

/// How many spaces fill a column.
pub open spec fn missing(width: nat, used: nat) -> nat {
    if used < width {
        (width - used) as nat
    } else {
        0
    }
}

/// A text with spaces up to a width.
pub open spec fn padded(text: Seq<char>, width: nat) -> Seq<char> {
    text + spaces(missing(width, text.len()))
}

/// Appends spaces.
pub fn push_spaces(out: &mut String, n: usize)
    ensures
        final(out)@ == old(out)@ + spaces(n as nat),
{
    let mut i: usize = 0;
    assert(out@ =~= old(out)@ + spaces(0));
    while i < n
        invariant
            i <= n,
            out@ == old(out)@ + spaces(i as nat),
        decreases n - i,
    {
        out.push(' ');
        assert(old(out)@ + spaces((i + 1) as nat) =~= (old(out)@ + spaces(i as nat)).push(' '));
        i += 1;
    }
}

/// Appends a text with spaces up to a width.
pub fn push_padded(out: &mut String, text: &str, width: usize)
    ensures
        final(out)@ == old(out)@ + padded(text@, width as nat),
{
    let used: usize = chars_of(text).len();
    out.append(text);
    let rest: usize = if used < width {
        width - used
    } else {
        0
    };
    push_spaces(out, rest);
    assert(out@ =~= old(out)@ + padded(text@, width as nat));
}

/// Without colors nothing but the text is written.
pub proof fn law_plain_text_stays_plain(code: Seq<char>, text: Seq<char>)
    ensures
        painted(code, text, false) == text,
{
}

} // verus!

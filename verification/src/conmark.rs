//! conmark -- console markup
//! This module contains code for marking up text for display to the console.
use vstd::prelude::*;
use crate::command::trim;
use crate::command::trimmed;
use crate::types::push_char;

verus! {

/// The text that `textwrap::fill` makes of the given text and line width.
pub uninterp spec fn wrapped(text: Seq<char>, width: usize) -> Seq<char>;

/// Fills the text to the given width with `textwrap::fill`: breaks it into lines of at
/// most `width` columns where it can, at white space and explicit newlines.  The
/// contract names the result and claims that it depends on the text and the width
/// alone; nothing more of its content is stated.
#[verifier::external_body]
fn fill(text: &str, width: usize) -> (res: String)
    ensures
        res@ == wrapped(text@, width),
{
    textwrap::fill(text, width)
}

/// Wraps a text string for display to the console at the given width (the console
/// terminal width, where there is one).  The string is broken at explicit newlines.
pub fn conwrap(text: &str, width: usize) -> (res: String)
    ensures
        res@ == wrapped(text@, width),
{
    fill(text, width)
}

/// The conmark reading of a character: newlines become blanks, and pipes newlines.
pub open spec fn conmark_char(c: char) -> char {
    if c == '\n' {
        ' '
    } else if c == '|' {
        '\n'
    } else {
        c
    }
}

/// Reformats the input string using conmark syntax:
///
/// * The string is trimmed.
/// * Explicit newlines are replaced with blanks.
/// * Pipe characters ("|") are replaced with newlines.
pub fn confmt(text: &str) -> (res: String)
    ensures
        res@ == trimmed(text@).map_values(|c: char| conmark_char(c)),
{
    let t = trim(text);
    let n = t.as_str().unicode_len();
    let mut result = String::new();
    let mut i: usize = 0;
    while i < n
        invariant
            n == t@.len(),
            i <= n,
            result@ == t@.take(i as int).map_values(|c: char| conmark_char(c)),
        decreases n - i,
    {
        let c = t.as_str().get_char(i);
        let d = if c == '\n' {
            ' '
        } else if c == '|' {
            '\n'
        } else {
            c
        };
        push_char(&mut result, d);
        i = i + 1;
        assert(result@ =~= t@.take(i as int).map_values(|c: char| conmark_char(c)));
    }
    assert(t@.take(i as int) =~= t@);
    result
}

/// Formatted text holds no pipes: each has become a line break.
pub proof fn law_confmt_no_pipes(text: Seq<char>, formatted: Seq<char>)
    requires
        formatted == trimmed(text).map_values(|c: char| conmark_char(c)),
    ensures
        !formatted.contains('|'),
{
    if formatted.contains('|') {
        let i = choose|i: int| 0 <= i < formatted.len() && formatted[i] == '|';
        assert(formatted[i] == conmark_char(trimmed(text)[i]));
    }
}

} // verus!

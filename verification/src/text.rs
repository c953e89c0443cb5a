//! Letter names as they are shown: with a capital first letter.

use vstd::prelude::*;

verus! {

/// The capital of an ASCII small letter; any other character as it is.
pub open spec fn ascii_upper(c: char) -> char {
    if 'a' <= c && c <= 'z' {
        ((c as u8) - 32) as char
    } else {
        c
    }
}

/// `s` with its first character made an ASCII capital; the empty string as
/// it is.
pub open spec fn capitalized(s: Seq<char>) -> Seq<char> {
    if s.len() == 0 {
        s
    } else {
        seq![ascii_upper(s[0])] + s.subrange(1, s.len() as int)
    }
}

/// Calls `String::push`, which appends one character to the end of the
/// string.
#[verifier::external_body]
fn push_char(s: &mut String, c: char)
    ensures
        final(s)@ == old(s)@.push(c),
{
    s.push(c)
}

/// The capital of `c` if it is an ASCII small letter, else `c`.
pub fn to_ascii_upper(c: char) -> (capital: char)
    ensures
        capital == ascii_upper(c),
{
    if 'a' <= c && c <= 'z' {
        ((c as u8) - 32) as char
    } else {
        c
    }
}

/// Gives `s` a capital first letter. Letter names are ASCII, so only an
/// ASCII small letter is changed; the rest of the string is kept.
pub fn capitalize_first(s: &str) -> (shown: String)
    ensures
        shown@ == capitalized(s@),
{
    let n: usize = s.unicode_len();
    let mut shown = String::new();
    if n > 0 {
        push_char(&mut shown, to_ascii_upper(s.get_char(0)));
        shown.append(s.substring_char(1, n));
        assert(shown@ =~= capitalized(s@));
    } else {
        assert(shown@ =~= s@);
    }
    shown
}

} // verus!

//! Character classes the command line syntax is built from.
use vstd::prelude::*;

verus! {

/// Whether `c` has the Unicode `White_Space` property: tab to carriage
/// return, space, next line, no-break space, the Ogham space mark, the en
/// quad to the hair space, the line and paragraph separators, the narrow
/// no-break space, the medium mathematical space and the ideographic space.
pub open spec fn char_is_whitespace(c: char) -> bool {
    ||| '\u{9}' <= c <= '\u{d}'
    ||| c == ' '
    ||| c == '\u{85}'
    ||| c == '\u{a0}'
    ||| c == '\u{1680}'
    ||| '\u{2000}' <= c <= '\u{200a}'
    ||| c == '\u{2028}'
    ||| c == '\u{2029}'
    ||| c == '\u{202f}'
    ||| c == '\u{205f}'
    ||| c == '\u{3000}'
}

/// Whether `c` is alphabetic or numeric in Unicode, as `char::is_alphanumeric` answers.
pub uninterp spec fn char_is_alphanumeric(c: char) -> bool;

/// An ASCII letter or decimal digit.
pub open spec fn char_is_ascii_alphanumeric(c: char) -> bool {
    ||| 'a' <= c <= 'z'
    ||| 'A' <= c <= 'Z'
    ||| '0' <= c <= '9'
}

/// An ASCII decimal digit, `'0'..='9'`.
pub open spec fn char_is_ascii_digit(c: char) -> bool {
    '0' <= c <= '9'
}

/// Whether `c` is whitespace, as `char::is_whitespace` answers: the
/// characters with the Unicode `White_Space` property.
pub fn is_whitespace(c: char) -> (r: bool)
    ensures
        r == char_is_whitespace(c),
{
    ('\u{9}' <= c && c <= '\u{d}') || c == ' ' || c == '\u{85}' || c == '\u{a0}' || c == '\u{1680}'
        || ('\u{2000}' <= c && c <= '\u{200a}') || c == '\u{2028}' || c == '\u{2029}' || c == '\u{202f}'
        || c == '\u{205f}' || c == '\u{3000}'
}

/// Calls `char::is_alphanumeric`. Its result is named by `char_is_alphanumeric`.
/// Of ASCII the contract states what the standard library documents (the
/// Unicode `Alphabetic` property and the numeric categories): the letters
/// and digits are alphanumeric, every other ASCII character is not. The
/// Unicode tables beyond ASCII are left unstated.
#[verifier::external_body]
pub fn is_alphanumeric(c: char) -> (r: bool)
    ensures
        r == char_is_alphanumeric(c),
        c <= '\u{7f}' ==> (r <==> char_is_ascii_alphanumeric(c)),
{
    c.is_alphanumeric()
}

/// Whether `c` is an ASCII decimal digit, `'0'..='9'`.
pub fn is_ascii_digit(c: char) -> (r: bool)
    ensures
        r == char_is_ascii_digit(c),
{
    '0' <= c && c <= '9'
}

/// Collects characters into a `String`, as `String`'s `FromIterator<char>`
/// does: the string holds exactly these characters, in order.
#[verifier::external_body]
pub fn string_from_chars(chars: &Vec<char>) -> (s: String)
    ensures
        s@ == chars@,
{
    chars.iter().collect()
}

} // verus!

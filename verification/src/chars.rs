//! Character-class predicates mirroring the ABNF character classes of
//! RFC 5322 §3.2, as extended by RFC 6531/6532 to admit any non-ASCII
//! Unicode scalar value.
//!
//! Each class is stated as a spec predicate over a single `char`, and each
//! executable test is proved to decide exactly that predicate.

use vstd::prelude::*;

verus! {

/// `UTF8-non-ascii` (RFC 6531/6532): the entire non-ASCII range is accepted.
pub open spec fn uchar(c: char) -> bool {
    c >= '\u{0080}'
}

/// `atext` (RFC 5322 §3.2.3): ASCII alphanumerics, a fixed punctuation set,
/// plus the UTF-8 non-ASCII extension.
pub open spec fn atext(c: char) -> bool {
    ||| 'a' <= c && c <= 'z'
    ||| 'A' <= c && c <= 'Z'
    ||| '0' <= c && c <= '9'
    ||| c == '!' || c == '#' || c == '$' || c == '%' || c == '&' || c == '\''
    ||| c == '*' || c == '+' || c == '-' || c == '/' || c == '=' || c == '?'
    ||| c == '^' || c == '_' || c == '`' || c == '{' || c == '|' || c == '}'
    ||| c == '~'
    ||| uchar(c)
}

/// `VCHAR`: printable ASCII, 0x21 through 0x7E inclusive.
pub open spec fn vchar(c: char) -> bool {
    '\x21' <= c && c <= '\x7E'
}

/// `WSP`: space or horizontal tab.
pub open spec fn wsp(c: char) -> bool {
    c == ' ' || c == '\t'
}

/// `qtext` (RFC 5322 §3.2.4): printable ASCII except `"` and `\`, plus the
/// UTF-8 non-ASCII extension.
pub open spec fn qtext_char(c: char) -> bool {
    ||| c == '\x21'
    ||| '\x23' <= c && c <= '\x5B'
    ||| '\x5D' <= c && c <= '\x7E'
    ||| uchar(c)
}

/// `dtext` (RFC 5322 §3.4.1): printable ASCII except `[`, `]` and `\`.
pub open spec fn dtext_char(c: char) -> bool {
    ||| '\x21' <= c && c <= '\x5A'
    ||| '\x5E' <= c && c <= '\x7E'
}

/// `ctext` (RFC 5322 §3.2.2): the characters legal inside a comment.
pub open spec fn ctext_char(c: char) -> bool {
    ||| c == '\x27'
    ||| '\x2A' <= c && c <= '\x5B'
    ||| '\x5D' <= c && c <= '\x7E'
}

/// `specials` (RFC 5322 §3.2.3): printable ASCII that never appears in `atext`.
pub open spec fn special(c: char) -> bool {
    ||| c == '(' || c == ')' || c == '<' || c == '>' || c == '[' || c == ']'
    ||| c == ':' || c == ';' || c == '@' || c == '\\' || c == ',' || c == '.'
    ||| c == '"'
}

/// Decides [`uchar`].
pub fn is_uchar(c: char) -> (r: bool)
    ensures
        r == uchar(c),
{
    c >= '\u{0080}'
}

/// Decides [`atext`].
pub fn is_atext(c: char) -> (r: bool)
    ensures
        r == atext(c),
{
    ('a' <= c && c <= 'z') || ('A' <= c && c <= 'Z') || ('0' <= c && c <= '9') || c == '!'
        || c == '#' || c == '$' || c == '%' || c == '&' || c == '\'' || c == '*' || c == '+'
        || c == '-' || c == '/' || c == '=' || c == '?' || c == '^' || c == '_' || c == '`'
        || c == '{' || c == '|' || c == '}' || c == '~' || is_uchar(c)
}

/// Decides [`vchar`].
pub fn is_vchar(c: char) -> (r: bool)
    ensures
        r == vchar(c),
{
    '\x21' <= c && c <= '\x7E'
}

/// Decides [`wsp`].
pub fn is_wsp(c: char) -> (r: bool)
    ensures
        r == wsp(c),
{
    c == ' ' || c == '\t'
}

/// Decides [`qtext_char`].
pub fn is_qtext_char(c: char) -> (r: bool)
    ensures
        r == qtext_char(c),
{
    c == '\x21' || ('\x23' <= c && c <= '\x5B') || ('\x5D' <= c && c <= '\x7E') || is_uchar(c)
}

/// Decides [`dtext_char`].
pub fn is_dtext_char(c: char) -> (r: bool)
    ensures
        r == dtext_char(c),
{
    ('\x21' <= c && c <= '\x5A') || ('\x5E' <= c && c <= '\x7E')
}

/// Decides [`ctext_char`].
pub fn is_ctext_char(c: char) -> (r: bool)
    ensures
        r == ctext_char(c),
{
    c == '\x27' || ('\x2A' <= c && c <= '\x5B') || ('\x5D' <= c && c <= '\x7E')
}

/// Decides [`special`].
pub fn is_special(c: char) -> (r: bool)
    ensures
        r == special(c),
{
    c == '(' || c == ')' || c == '<' || c == '>' || c == '[' || c == ']' || c == ':' || c == ';'
        || c == '@' || c == '\\' || c == ',' || c == '.' || c == '"'
}

} // verus!

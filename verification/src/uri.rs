//! Percent-encoding of a canonical address for `mailto:` URIs.
//!
//! Each reserved character is replaced by `%` followed by the two uppercase
//! hexadecimal digits of its ASCII code point; every other character
//! (including non-ASCII) is left as it is.

use vstd::prelude::*;
use vstd::string::*;

verus! {

/// The characters that are escaped in a `mailto:` URI.
pub open spec fn uri_reserved(c: char) -> bool {
    ||| c == '!' || c == '#' || c == '$' || c == '%' || c == '&' || c == '\''
    ||| c == '(' || c == ')' || c == '*' || c == '+' || c == ',' || c == '/'
    ||| c == ':' || c == ';' || c == '=' || c == '?' || c == '@' || c == '['
    ||| c == ']'
}

/// The uppercase hexadecimal digit for a value in `[0, 16)`.
pub open spec fn hex_digit(d: int) -> char {
    if d == 0 { '0' }
    else if d == 1 { '1' }
    else if d == 2 { '2' }
    else if d == 3 { '3' }
    else if d == 4 { '4' }
    else if d == 5 { '5' }
    else if d == 6 { '6' }
    else if d == 7 { '7' }
    else if d == 8 { '8' }
    else if d == 9 { '9' }
    else if d == 10 { 'A' }
    else if d == 11 { 'B' }
    else if d == 12 { 'C' }
    else if d == 13 { 'D' }
    else if d == 14 { 'E' }
    else { 'F' }
}

/// What one character contributes to the encoded output: `%` and two
/// uppercase hex digits of its code point if it is reserved (all reserved
/// characters are ASCII), otherwise the character itself.
pub open spec fn percent_encoded_char(c: char) -> Seq<char> {
    if uri_reserved(c) {
        seq!['%', hex_digit(c as int / 16), hex_digit(c as int % 16)]
    } else {
        seq![c]
    }
}

/// The percent-encoding of a whole string.
pub open spec fn percent_encoded(s: Seq<char>) -> Seq<char>
    decreases s.len(),
{
    if s.len() == 0 {
        Seq::empty()
    } else {
        percent_encoded_char(s[0]) + percent_encoded(s.drop_first())
    }
}

/// The `mailto:` URI of a canonical address string.
pub open spec fn mailto_uri(s: Seq<char>) -> Seq<char> {
    "mailto:"@ + percent_encoded(s)
}

/// Encoding one more character appends that character's contribution.
pub proof fn lemma_percent_encoded_push(s: Seq<char>, c: char)
    ensures
        percent_encoded(s.push(c)) == percent_encoded(s) + percent_encoded_char(c),
    decreases s.len(),
{
    if s.len() == 0 {
        assert(s.push(c)[0] == c);
        assert(s.push(c).drop_first() =~= Seq::<char>::empty());
        assert(percent_encoded(s.push(c).drop_first()) == Seq::<char>::empty());
        assert(percent_encoded(s.push(c)) =~= percent_encoded(s) + percent_encoded_char(c));
    } else {
        assert(s.push(c)[0] == s[0]);
        assert(s.push(c).drop_first() =~= s.drop_first().push(c));
        lemma_percent_encoded_push(s.drop_first(), c);
        assert(percent_encoded(s.push(c)) == percent_encoded_char(s[0]) + (percent_encoded(
            s.drop_first(),
        ) + percent_encoded_char(c)));
        assert(percent_encoded_char(s[0]) + (percent_encoded(s.drop_first())
            + percent_encoded_char(c)) =~= (percent_encoded_char(s[0]) + percent_encoded(
            s.drop_first(),
        )) + percent_encoded_char(c));
    }
}

/// Decides [`uri_reserved`].
pub fn is_uri_reserved(c: char) -> (r: bool)
    ensures
        r == uri_reserved(c),
{
    c == '!' || c == '#' || c == '$' || c == '%' || c == '&' || c == '\'' || c == '(' || c == ')'
        || c == '*' || c == '+' || c == ',' || c == '/' || c == ':' || c == ';' || c == '='
        || c == '?' || c == '@' || c == '[' || c == ']'
}

/// The three-character escape of a reserved character.
fn escape_triplet(c: char) -> (r: &'static str)
    requires
        uri_reserved(c),
    ensures
        r@ == percent_encoded_char(c),
{
    let r: &'static str = match c {
        '!' => "%21",
        '#' => "%23",
        '$' => "%24",
        '%' => "%25",
        '&' => "%26",
        '\'' => "%27",
        '(' => "%28",
        ')' => "%29",
        '*' => "%2A",
        '+' => "%2B",
        ',' => "%2C",
        '/' => "%2F",
        ':' => "%3A",
        ';' => "%3B",
        '=' => "%3D",
        '?' => "%3F",
        '@' => "%40",
        '[' => "%5B",
        _ => "%5D",
    };
    proof {
        reveal_strlit("%21");
        reveal_strlit("%23");
        reveal_strlit("%24");
        reveal_strlit("%25");
        reveal_strlit("%26");
        reveal_strlit("%27");
        reveal_strlit("%28");
        reveal_strlit("%29");
        reveal_strlit("%2A");
        reveal_strlit("%2B");
        reveal_strlit("%2C");
        reveal_strlit("%2F");
        reveal_strlit("%3A");
        reveal_strlit("%3B");
        reveal_strlit("%3D");
        reveal_strlit("%3F");
        reveal_strlit("%40");
        reveal_strlit("%5B");
        reveal_strlit("%5D");
        assert(r@ =~= percent_encoded_char(c));
    }
    r
}

/// Percent-encodes `address` as [`percent_encoded`] describes.
pub fn encode(address: &str) -> (r: String)
    ensures
        r@ == percent_encoded(address@),
{
    let n = address.unicode_len();
    let mut result = String::new();
    let mut i: usize = 0;
    while i < n
        invariant
            i <= n,
            n == address@.len(),
            result@ == percent_encoded(address@.take(i as int)),
        decreases n - i,
    {
        let c = address.get_char(i);
        if is_uri_reserved(c) {
            result.append(escape_triplet(c));
        } else {
            let piece = address.substring_char(i, i + 1);
            proof {
                assert(piece@ =~= seq![address@[i as int]]);
            }
            result.append(piece);
        }
        proof {
            lemma_percent_encoded_push(address@.take(i as int), address@[i as int]);
            assert(address@.take(i as int).push(address@[i as int]) =~= address@.take(
                i as int + 1,
            ));
        }
        i += 1;
    }
    proof {
        assert(address@.take(n as int) =~= address@);
    }
    result
}

} // verus!

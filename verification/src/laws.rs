//! Laws relating the validators and the formatters: re-validating a
//! canonical form recovers the same components, and the `mailto:` URI never
//! contains a bare separator or bracket.

use vstd::prelude::*;

use crate::addr::{addr_parts, lemma_last_separator_found, strip_angle_brackets, EmailAddress};
use crate::chars::atext;
use crate::error::Error;
use crate::tokens::dot_atom_text;
use crate::uri::{hex_digit, mailto_uri, percent_encoded, percent_encoded_char, uri_reserved};

verus! {

/// Round-trip stability: the canonical string of a well-formed address
/// splits and validates back into exactly the same local-part and domain.
/// Since equality of address values is componentwise, the value that
/// [`EmailAddress::validate`] constructs from the canonical string equals
/// the value it started from.
pub proof fn lemma_canonical_round_trip(a: EmailAddress)
    requires
        a.wf(),
    ensures
        addr_parts(a.canonical()) == Ok::<(Seq<char>, Seq<char>), Error>(
            (a.local_part(), a.domain_part()),
        ),
{
    let local = a.local_part();
    let domain = a.domain_part();
    let c = a.canonical();
    assert(c[c.len() - 1] == domain[domain.len() - 1]);
    // The domain's last character is `]` for a literal, and `atext`
    // otherwise, so the canonical string never ends with `>` and no angle
    // brackets are stripped.
    if !(domain.len() >= 2 && domain[0] == '[' && domain[domain.len() - 1] == ']') {
        assert(dot_atom_text(domain));
        assert(atext(domain[domain.len() - 1]));
    }
    assert(c[c.len() - 1] != '>');
    assert(strip_angle_brackets(c) == c);
    // The separator written between the components is the last one, because
    // a well-formed domain contains none.
    assert(c[local.len() as int] == '@');
    assert forall|j: int| local.len() < j < c.len() implies c[j] != '@' by {
        if j > local.len() {
            assert(c[j] == domain[j - local.len() - 1]);
            if domain[j - local.len() - 1] == '@' {
                assert(domain.contains('@'));
            }
        }
    }
    lemma_last_separator_found(c, local.len() as int);
    assert(c.subrange(0, local.len() as int) =~= local);
    assert(c.subrange(local.len() as int + 1, c.len() as int) =~= domain);
}

/// No hexadecimal digit is a separator or bracket.
proof fn lemma_hex_digit_benign(d: int)
    ensures
        hex_digit(d) != '@' && hex_digit(d) != '[' && hex_digit(d) != ']',
{
}

/// Percent-encoded output never contains a bare `@`, `[` or `]`: those
/// characters are reserved and leave only as escape triplets, whose own
/// characters (`%` and hex digits) are none of the three.
pub proof fn lemma_percent_encoded_no_bare_delimiters(s: Seq<char>)
    ensures
        forall|i: int|
            0 <= i < percent_encoded(s).len() ==> #[trigger] percent_encoded(s)[i] != '@'
                && percent_encoded(s)[i] != '[' && percent_encoded(s)[i] != ']',
    decreases s.len(),
{
    if s.len() > 0 {
        lemma_percent_encoded_no_bare_delimiters(s.drop_first());
        let head = percent_encoded_char(s[0]);
        assert forall|i: int| 0 <= i < head.len() implies head[i] != '@' && head[i] != '['
            && head[i] != ']' by {
            if uri_reserved(s[0]) {
                lemma_hex_digit_benign(s[0] as int / 16);
                lemma_hex_digit_benign(s[0] as int % 16);
            }
        }
        assert(forall|i: int|
            0 <= i < percent_encoded(s).len() ==> #[trigger] percent_encoded(s)[i] == (if i
                < head.len() {
                head[i]
            } else {
                percent_encoded(s.drop_first())[i - head.len()]
            }));
    }
}

/// The URI of any canonical string starts with the literal prefix
/// `mailto:` and contains no bare `@`, `[` or `]` anywhere.
pub proof fn lemma_mailto_uri_form(s: Seq<char>)
    ensures
        mailto_uri(s).len() >= 7,
        mailto_uri(s).subrange(0, 7) == "mailto:"@,
        forall|i: int|
            0 <= i < mailto_uri(s).len() ==> #[trigger] mailto_uri(s)[i] != '@' && mailto_uri(
                s,
            )[i] != '[' && mailto_uri(s)[i] != ']',
{
    reveal_strlit("mailto:");
    let u = mailto_uri(s);
    assert(u.subrange(0, 7) =~= "mailto:"@);
    lemma_percent_encoded_no_bare_delimiters(s);
    assert forall|i: int| 0 <= i < u.len() implies u[i] != '@' && u[i] != '[' && u[i]
        != ']' by {
        if i >= 7 {
            assert(u[i] == percent_encoded(s)[i - 7]);
        }
    }
}

/// The URI of a well-formed address is the `mailto:` prefix followed by the
/// percent-encoded canonical form, with every separator and bracket escaped.
pub proof fn lemma_to_uri_well_formed(a: EmailAddress)
    requires
        a.wf(),
    ensures
        mailto_uri(a.canonical()).subrange(0, 7) == "mailto:"@,
        forall|i: int|
            0 <= i < mailto_uri(a.canonical()).len() ==> #[trigger] mailto_uri(a.canonical())[i]
                != '@' && mailto_uri(a.canonical())[i] != '[' && mailto_uri(a.canonical())[i]
                != ']',
{
    lemma_mailto_uri_form(a.canonical());
}

} // verus!

//! The `addr-spec` validators and the validated [`EmailAddress`] value.
//!
//! The top-level entry point strips an optional pair of enclosing angle
//! brackets, splits the candidate at the last occurrence of the separator
//! character `@` (the separator may legally occur earlier, inside a quoted
//! local-part), validates the two pieces, and on success constructs an
//! immutable value holding the exact substrings.

use vstd::prelude::*;
use vstd::string::*;

use crate::error::Error;
use crate::tokens::{dot_atom_text, dtext_body, is_dot_atom_text, is_dtext_body, is_qcontent,
    labels_within, check_labels_within, qcontent};
use crate::uri::{encode, mailto_uri};

verus! {

/// Longest accepted local-part, in Unicode scalar values.
pub const LOCAL_PART_MAX_LENGTH: usize = 64;

/// Longest accepted domain, in Unicode scalar values.
pub const DOMAIN_MAX_LENGTH: usize = 254;

/// Longest accepted label of a dotted domain, in Unicode scalar values.
pub const SUB_DOMAIN_MAX_LENGTH: usize = 63;

/// The outcome of validating a candidate local-part: the first failure wins.
/// A string that begins and ends with `"` (and is at least two characters
/// long) is validated as a quoted string with the quotes stripped; anything
/// else must be `dot-atom-text`.  A single `"` is not treated as quoted, and
/// fails the dot-atom check.
pub open spec fn local_part_result(s: Seq<char>) -> Result<(), Error> {
    if s.len() == 0 {
        Err(Error::LocalPartEmpty)
    } else if s.len() > LOCAL_PART_MAX_LENGTH {
        Err(Error::LocalPartTooLong)
    } else if s.len() >= 2 && s[0] == '"' && s[s.len() - 1] == '"' {
        if s.len() == 2 {
            Err(Error::LocalPartEmpty)
        } else if qcontent(s.subrange(1, s.len() - 1)) {
            Ok(())
        } else {
            Err(Error::InvalidCharacter)
        }
    } else if dot_atom_text(s) {
        Ok(())
    } else {
        Err(Error::InvalidCharacter)
    }
}

/// The outcome of validating a dotted (non-literal) domain.
pub open spec fn text_domain_result(s: Seq<char>) -> Result<(), Error> {
    if dot_atom_text(s) {
        if labels_within(s, SUB_DOMAIN_MAX_LENGTH as int) {
            Ok(())
        } else {
            Err(Error::SubDomainTooLong)
        }
    } else {
        Err(Error::InvalidCharacter)
    }
}

/// The outcome of validating a candidate domain: the first failure wins.
/// A string that begins with `[` and ends with `]` is a `domain-literal`
/// whose interior is checked only against the `dtext` character class (an
/// empty bracket pair is accepted, and no IP-address shape is verified);
/// anything else must be `dot-atom-text` with every label within the bound.
pub open spec fn domain_result(s: Seq<char>) -> Result<(), Error> {
    if s.len() == 0 {
        Err(Error::DomainEmpty)
    } else if s.len() > DOMAIN_MAX_LENGTH {
        Err(Error::DomainTooLong)
    } else if s.len() >= 2 && s[0] == '[' && s[s.len() - 1] == ']' {
        if dtext_body(s.subrange(1, s.len() - 1)) {
            Ok(())
        } else {
            Err(Error::InvalidCharacter)
        }
    } else {
        text_domain_result(s)
    }
}

/// Validates the interior of a quoted local-part.
pub fn parse_quoted_local_part(part: &str) -> (r: Result<(), Error>)
    ensures
        r == (if qcontent(part@) {
            Ok::<(), Error>(())
        } else {
            Err::<(), Error>(Error::InvalidCharacter)
        }),
{
    if is_qcontent(part) {
        Ok(())
    } else {
        Err(Error::InvalidCharacter)
    }
}

/// Validates an unquoted local-part.
pub fn parse_unquoted_local_part(part: &str) -> (r: Result<(), Error>)
    ensures
        r == (if dot_atom_text(part@) {
            Ok::<(), Error>(())
        } else {
            Err::<(), Error>(Error::InvalidCharacter)
        }),
{
    if is_dot_atom_text(part) {
        Ok(())
    } else {
        Err(Error::InvalidCharacter)
    }
}

/// Validates a candidate local-part, as [`local_part_result`] describes.
pub fn parse_local_part(part: &str) -> (r: Result<(), Error>)
    ensures
        r == local_part_result(part@),
{
    let n = part.unicode_len();
    if n == 0 {
        return Err(Error::LocalPartEmpty);
    }
    if n > LOCAL_PART_MAX_LENGTH {
        return Err(Error::LocalPartTooLong);
    }
    if n >= 2 && part.get_char(0) == '"' && part.get_char(n - 1) == '"' {
        if n == 2 {
            Err(Error::LocalPartEmpty)
        } else {
            parse_quoted_local_part(part.substring_char(1, n - 1))
        }
    } else {
        parse_unquoted_local_part(part)
    }
}

/// Validates the interior of a `domain-literal`.
pub fn parse_literal_domain(part: &str) -> (r: Result<(), Error>)
    ensures
        r == (if dtext_body(part@) {
            Ok::<(), Error>(())
        } else {
            Err::<(), Error>(Error::InvalidCharacter)
        }),
{
    if is_dtext_body(part) {
        Ok(())
    } else {
        Err(Error::InvalidCharacter)
    }
}

/// Validates a dotted domain, as [`text_domain_result`] describes.
pub fn parse_text_domain(part: &str) -> (r: Result<(), Error>)
    ensures
        r == text_domain_result(part@),
{
    if is_dot_atom_text(part) {
        if check_labels_within(part, SUB_DOMAIN_MAX_LENGTH) {
            Ok(())
        } else {
            Err(Error::SubDomainTooLong)
        }
    } else {
        Err(Error::InvalidCharacter)
    }
}

/// Validates a candidate domain, as [`domain_result`] describes.
pub fn parse_domain(part: &str) -> (r: Result<(), Error>)
    ensures
        r == domain_result(part@),
{
    let n = part.unicode_len();
    if n == 0 {
        return Err(Error::DomainEmpty);
    }
    if n > DOMAIN_MAX_LENGTH {
        return Err(Error::DomainTooLong);
    }
    if n >= 2 && part.get_char(0) == '[' && part.get_char(n - 1) == ']' {
        parse_literal_domain(part.substring_char(1, n - 1))
    } else {
        parse_text_domain(part)
    }
}

/// The candidate with one enclosing pair of angle brackets removed, if both
/// are present (the common `angle-addr` wrapping).
pub open spec fn strip_angle_brackets(s: Seq<char>) -> Seq<char> {
    if s.len() >= 2 && s[0] == '<' && s[s.len() - 1] == '>' {
        s.subrange(1, s.len() - 1)
    } else {
        s
    }
}

/// The index of the last separator character `@` in `s`, or `-1` if there is
/// none.
pub open spec fn last_separator(s: Seq<char>) -> int
    decreases s.len(),
{
    if s.len() == 0 {
        -1
    } else if s[s.len() - 1] == '@' {
        s.len() - 1
    } else {
        last_separator(s.drop_last())
    }
}

/// If `s[k]` is a separator and no later character is, the last separator is
/// at `k`.
pub proof fn lemma_last_separator_found(s: Seq<char>, k: int)
    requires
        0 <= k < s.len(),
        s[k] == '@',
        forall|j: int| k < j < s.len() ==> s[j] != '@',
    ensures
        last_separator(s) == k,
    decreases s.len(),
{
    if k == s.len() - 1 {
    } else {
        assert(s.drop_last()[k] == s[k]);
        lemma_last_separator_found(s.drop_last(), k);
    }
}

/// A string without any separator character has no last separator.
pub proof fn lemma_last_separator_none(s: Seq<char>)
    requires
        forall|j: int| 0 <= j < s.len() ==> s[j] != '@',
    ensures
        last_separator(s) == -1,
    decreases s.len(),
{
    if s.len() > 0 {
        lemma_last_separator_none(s.drop_last());
    }
}

/// The outcome of the top-level split-and-validate step on a full candidate
/// address: the local-part and domain substrings on success (quotes and
/// brackets retained as they appeared), or the first error encountered.
pub open spec fn addr_parts(s: Seq<char>) -> Result<(Seq<char>, Seq<char>), Error> {
    let t = strip_angle_brackets(s);
    let k = last_separator(t);
    if k < 0 {
        Err(Error::MissingSeparator)
    } else {
        let local = t.subrange(0, k);
        let domain = t.subrange(k + 1, t.len() as int);
        match local_part_result(local) {
            Err(e) => Err(e),
            Ok(()) => match domain_result(domain) {
                Err(e) => Err(e),
                Ok(()) => Ok((local, domain)),
            },
        }
    }
}

/// A single validated email address: the exact local-part substring that
/// appeared before the separator (including surrounding quotes if quoted)
/// and the exact domain substring after it (including brackets if a
/// `domain-literal`).  Constructed only by [`EmailAddress::validate`], and
/// immutable once constructed.
#[derive(Debug, Clone, Eq, Hash)]
pub struct EmailAddress {
    local: String,
    domain: String,
}

impl EmailAddress {
    /// The local-part, as a sequence of Unicode scalar values.
    pub closed spec fn local_part(self) -> Seq<char> {
        self.local@
    }

    /// The domain, as a sequence of Unicode scalar values.
    pub closed spec fn domain_part(self) -> Seq<char> {
        self.domain@
    }

    /// The canonical string: local-part, the separator `@`, domain.
    pub open spec fn canonical(self) -> Seq<char> {
        self.local_part() + seq!['@'] + self.domain_part()
    }

    /// Well-formedness: both components validate on their own, and the
    /// domain contains no separator character (it is everything after the
    /// last separator of the candidate, so none can remain).  Together these
    /// make the canonical string re-validate to an equal value.
    pub open spec fn wf(self) -> bool {
        &&& local_part_result(self.local_part()) == Ok::<(), Error>(())
        &&& domain_result(self.domain_part()) == Ok::<(), Error>(())
        &&& !self.domain_part().contains('@')
    }
}

impl PartialEq for EmailAddress {
    /// Structural equality over the two component strings.
    fn eq(&self, other: &Self) -> (r: bool) {
        self.local == other.local && self.domain == other.domain
    }
}

impl vstd::std_specs::cmp::PartialEqSpecImpl for EmailAddress {
    open spec fn obeys_eq_spec() -> bool {
        true
    }

    open spec fn eq_spec(&self, other: &Self) -> bool {
        self.local_part() == other.local_part() && self.domain_part() == other.domain_part()
    }
}

impl EmailAddress {
    /// The full parse-and-construct entry point: decides whether `address`
    /// is a syntactically valid address and, if so, returns the value split
    /// into its validated local-part and domain.
    pub fn validate(address: &str) -> (r: Result<EmailAddress, Error>)
        ensures
            match r {
                Ok(a) => {
                    &&& addr_parts(address@) == Ok::<(Seq<char>, Seq<char>), Error>(
                        (a.local_part(), a.domain_part()),
                    )
                    &&& a.wf()
                },
                Err(e) => addr_parts(address@) == Err::<(Seq<char>, Seq<char>), Error>(e),
            },
    {
        parse_address(address)
    }

    /// Whether `address` is a valid email address; true exactly when
    /// [`EmailAddress::validate`] succeeds.
    pub fn is_valid(address: &str) -> (r: bool)
        ensures
            r == (addr_parts(address@) is Ok),
    {
        parse_address(address).is_ok()
    }

    /// Whether `part` would be a valid local-part of an email address.
    pub fn is_valid_local_part(part: &str) -> (r: bool)
        ensures
            r == (local_part_result(part@) is Ok),
    {
        parse_local_part(part).is_ok()
    }

    /// Whether `part` would be a valid domain of an email address.
    pub fn is_valid_domain(part: &str) -> (r: bool)
        ensures
            r == (domain_result(part@) is Ok),
    {
        parse_domain(part).is_ok()
    }

    /// The canonical form: local-part, the literal separator `@`, domain.
    pub fn to_string(&self) -> (r: String)
        ensures
            r@ == self.canonical(),
    {
        let mut r = self.local.clone();
        r.append("@");
        r.append(self.domain.as_str());
        proof {
            reveal_strlit("@");
            assert("@"@ =~= seq!['@']);
        }
        r
    }

    /// The address as a `mailto:` URI, with the canonical form
    /// percent-encoded.
    pub fn to_uri(&self) -> (r: String)
        ensures
            r@ == mailto_uri(self.canonical()),
    {
        let canonical = self.to_string();
        let encoded = encode(canonical.as_str());
        let mut r = String::from_str("mailto:");
        r.append(encoded.as_str());
        r
    }

    /// The address formatted for a header with a display name:
    /// `display_name <local@domain>`.  The display name is not escaped.
    pub fn to_display(&self, display_name: &str) -> (r: String)
        ensures
            r@ == display_name@ + " <"@ + self.canonical() + ">"@,
    {
        let mut r = String::from_str(display_name);
        r.append(" <");
        let canonical = self.to_string();
        r.append(canonical.as_str());
        r.append(">");
        r
    }
}

impl core::str::FromStr for EmailAddress {
    type Err = Error;

    /// Parses with [`EmailAddress::validate`].
    fn from_str(s: &str) -> Result<Self, Self::Err> {
        parse_address(s)
    }
}

/// Validates a full candidate address and constructs the value, as
/// [`addr_parts`] describes.
pub fn parse_address(address: &str) -> (r: Result<EmailAddress, Error>)
    ensures
        match r {
            Ok(a) => {
                &&& addr_parts(address@) == Ok::<(Seq<char>, Seq<char>), Error>(
                    (a.local_part(), a.domain_part()),
                )
                &&& a.wf()
            },
            Err(e) => addr_parts(address@) == Err::<(Seq<char>, Seq<char>), Error>(e),
        },
{
    let n = address.unicode_len();
    let stripped: &str = if n >= 2 && address.get_char(0) == '<' && address.get_char(n - 1)
        == '>' {
        address.substring_char(1, n - 1)
    } else {
        address
    };
    proof {
        assert(stripped@ == strip_angle_brackets(address@));
    }
    let m = stripped.unicode_len();
    let mut i: usize = 0;
    let mut k: usize = 0;
    let mut found = false;
    while i < m
        invariant
            i <= m,
            m == stripped@.len(),
            found ==> k < i && stripped@[k as int] == '@' && forall|j: int|
                k < j < i ==> stripped@[j] != '@',
            !found ==> forall|j: int| 0 <= j < i ==> stripped@[j] != '@',
        decreases m - i,
    {
        if stripped.get_char(i) == '@' {
            k = i;
            found = true;
        }
        i += 1;
    }
    if !found {
        proof {
            lemma_last_separator_none(stripped@);
        }
        return Err(Error::MissingSeparator);
    }
    proof {
        lemma_last_separator_found(stripped@, k as int);
    }
    let local_str = stripped.substring_char(0, k);
    let domain_str = stripped.substring_char(k + 1, m);
    match parse_local_part(local_str) {
        Err(e) => {
            return Err(e);
        },
        Ok(()) => {},
    }
    match parse_domain(domain_str) {
        Err(e) => {
            return Err(e);
        },
        Ok(()) => {},
    }
    let a = EmailAddress { local: String::from_str(local_str), domain: String::from_str(
        domain_str,
    ) };
    proof {
        assert(!a.domain_part().contains('@')) by {
            assert(forall|idx: int|
                0 <= idx < a.domain_part().len() ==> #[trigger] a.domain_part()[idx]
                    == stripped@[k + 1 + idx]);
        }
    }
    Ok(a)
}

} // verus!

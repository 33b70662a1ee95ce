//! The closed error taxonomy for address validation.  Exactly one tag is
//! produced per failed attempt (first failure wins); several tags are
//! reserved for stricter checks that no current validator performs.

use vstd::prelude::*;
use vstd::string::*;

verus! {

/// Why validation of an address failed.
///
/// `DomainTooFew`, `DomainInvalidSeparator`, `UnbalancedQuotes`,
/// `InvalidComment` and `InvalidIPAddress` are reserved: no validator
/// currently produces them (dot-placement errors surface as
/// `InvalidCharacter`, and a `domain-literal` body is checked only against
/// the `dtext` character class, not as an IP address).  `CantHappen` is the
/// internal-invariant-violation tag.
#[derive(Debug, Clone, PartialEq)]
pub enum Error {
    /// An invalid character was found in some component of the address.
    InvalidCharacter,
    /// The separator character between `local-part` and `domain` (`@`) was missing.
    MissingSeparator,
    /// The `local-part` is an empty string.
    LocalPartEmpty,
    /// The `local-part` is too long.
    LocalPartTooLong,
    /// The `domain` is an empty string.
    DomainEmpty,
    /// The `domain` is too long.
    DomainTooLong,
    /// A `sub-domain` within the `domain` is too long.
    SubDomainTooLong,
    /// Too few `sub-domain`s in `domain`.
    DomainTooFew,
    /// Invalid placement of the domain separator (`.`).
    DomainInvalidSeparator,
    /// The quotes (`"`) around `local-part` are unbalanced.
    UnbalancedQuotes,
    /// A comment within either the `local-part` or the `domain` was malformed.
    InvalidComment,
    /// An IP address in a `domain-literal` was malformed.
    InvalidIPAddress,
    /// This can't happen.
    CantHappen,
}

impl Error {
    /// The stable one-line description of each tag.
    pub open spec fn message_view(self) -> Seq<char> {
        match self {
            Error::InvalidCharacter => "Invalid character."@,
            Error::MissingSeparator => "Missing separator character '@'."@,
            Error::LocalPartEmpty => "Local part is empty."@,
            Error::LocalPartTooLong => "Local part is too long. Length limit: 64"@,
            Error::DomainEmpty => "Domain is empty."@,
            Error::DomainTooLong => "Domain is too long. Length limit: 254"@,
            Error::SubDomainTooLong => "A sub-domain is too long. Length limit: 63"@,
            Error::DomainTooFew => "Too few parts in the domain"@,
            Error::DomainInvalidSeparator => "Invalid placement of the domain separator '.'"@,
            Error::UnbalancedQuotes => "Quotes around the local-part are unbalanced."@,
            Error::InvalidComment => "A comment was badly formed."@,
            Error::InvalidIPAddress => "Invalid IP Address specified for domain."@,
            Error::CantHappen => "An impossible error was encountered."@,
        }
    }

    /// A stable, human-readable one-line message for this tag.
    pub fn message(&self) -> (r: String)
        ensures
            r@ == self.message_view(),
    {
        match self {
            Error::InvalidCharacter => String::from_str("Invalid character."),
            Error::MissingSeparator => String::from_str("Missing separator character '@'."),
            Error::LocalPartEmpty => String::from_str("Local part is empty."),
            Error::LocalPartTooLong => String::from_str(
                "Local part is too long. Length limit: 64",
            ),
            Error::DomainEmpty => String::from_str("Domain is empty."),
            Error::DomainTooLong => String::from_str("Domain is too long. Length limit: 254"),
            Error::SubDomainTooLong => String::from_str(
                "A sub-domain is too long. Length limit: 63",
            ),
            Error::DomainTooFew => String::from_str("Too few parts in the domain"),
            Error::DomainInvalidSeparator => String::from_str(
                "Invalid placement of the domain separator '.'",
            ),
            Error::UnbalancedQuotes => String::from_str(
                "Quotes around the local-part are unbalanced.",
            ),
            Error::InvalidComment => String::from_str("A comment was badly formed."),
            Error::InvalidIPAddress => String::from_str(
                "Invalid IP Address specified for domain.",
            ),
            Error::CantHappen => String::from_str("An impossible error was encountered."),
        }
    }
}

} // verus!

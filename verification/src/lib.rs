//! Validation and representation of RFC 5321/5322 email addresses
//! (`addr-spec`), with the RFC 6531/6532 UTF-8 extensions and the
//! RFC 3696 quoting rules.
//!
//! The entry point is [`EmailAddress::validate`], which decides whether an
//! input string is a syntactically valid address and, on success, returns an
//! immutable value split into its validated local-part and domain.  Every
//! recognizer is specified against a mathematical model of the grammar and
//! verified against that model.

pub mod addr;
pub mod chars;
pub mod error;
pub mod laws;
pub mod tokens;
pub mod uri;

pub use addr::EmailAddress;
pub use error::Error;

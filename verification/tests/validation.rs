//! Validation of well-known good and bad addresses.

use email_address::{EmailAddress, Error};

fn is_valid(address: &str, test_case: Option<&str>) {
    if let Some(test_case) = test_case {
        println!(">> test case: {}", test_case);
        println!("     <{}>", address);
    } else {
        println!(">> <{}>", address);
    }
    assert!(EmailAddress::is_valid(address));
}

fn expect(address: &str, error: Error, test_case: Option<&str>) {
    if let Some(test_case) = test_case {
        println!(">> test case: {}", test_case);
        println!("     <{}>, expecting {:?}", address, error);
    } else {
        println!(">> <{}>, expecting {:?}", address, error);
    }
    assert_eq!(EmailAddress::validate(address), Err(error));
}

#[test]
fn test_good_examples_from_wikipedia_01() {
    is_valid("simple@example.com", None);
}

#[test]
fn test_good_examples_from_wikipedia_02() {
    is_valid("very.common@example.com", None);
}

#[test]
fn test_good_examples_from_wikipedia_03() {
    is_valid("disposable.style.email.with+symbol@example.com", None);
}

#[test]
fn test_good_examples_from_wikipedia_04() {
    is_valid("other.email-with-hyphen@example.com", None);
}

#[test]
fn test_good_examples_from_wikipedia_05() {
    is_valid("fully-qualified-domain@example.com", None);
}

#[test]
fn test_good_examples_from_wikipedia_06() {
    is_valid(
        "user.name+tag+sorting@example.com",
        Some(" may go to user.name@example.com inbox depending on mail server"),
    );
}

#[test]
fn test_good_examples_from_wikipedia_07() {
    is_valid("x@example.com", Some("one-letter local-part"));
}

#[test]
fn test_good_examples_from_wikipedia_08() {
    is_valid("example-indeed@strange-example.com", None);
}

#[test]
fn test_good_examples_from_wikipedia_09() {
    is_valid("admin@mailserver1", Some("local domain name with no TLD, although ICANN highly discourages dotless email addresses"));
}

#[test]
fn test_good_examples_from_wikipedia_10() {
    is_valid(
        "example@s.example",
        Some("see the List of Internet top-level domains"),
    );
}

#[test]
fn test_good_examples_from_wikipedia_11() {
    is_valid("\" \"@example.org", Some("space between the quotes"));
}

#[test]
fn test_good_examples_from_wikipedia_12() {
    is_valid("\"john..doe\"@example.org", Some("quoted double dot"));
}

#[test]
fn test_good_examples_from_wikipedia_13() {
    is_valid(
        "mailhost!username@example.org",
        Some("bangified host route used for uucp mailers"),
    );
}

#[test]
fn test_good_examples_from_wikipedia_14() {
    is_valid(
        "user%example.com@example.org",
        Some("% escaped mail route to user@example.com via example.org"),
    );
}

#[test]
fn test_good_examples_from_wikipedia_15() {
    is_valid("jsmith@[192.168.2.1]", None);
}

#[test]
fn test_good_examples_from_wikipedia_16() {
    is_valid("jsmith@[IPv6:2001:db8::1]", None);
}

#[test]
fn test_good_examples_from_wikipedia_17() {
    is_valid("user+mailbox/department=shipping@example.com", None);
}

#[test]
fn test_good_examples_from_wikipedia_18() {
    is_valid("!#$%&'*+-/=?^_`.{|}~@example.com", None);
}

#[test]
fn test_good_examples_from_wikipedia_19() {
    // '@' is allowed in a quoted local part. Sorry.
    is_valid("\"Abc@def\"@example.com", None);
}

#[test]
fn test_good_examples_from_wikipedia_20() {
    is_valid("\"Joe.\\\\Blow\"@example.com", None);
}

#[test]
fn test_good_examples_from_wikipedia_21() {
    is_valid("用户@例子.广告", Some("Chinese"));
}

#[test]
fn test_good_examples_from_wikipedia_22() {
    is_valid("अजय@डाटा.भारत", Some("Hindi"));
}

#[test]
fn test_good_examples_from_wikipedia_23() {
    is_valid("квіточка@пошта.укр", Some("Ukranian"));
}

#[test]
fn test_good_examples_from_wikipedia_24() {
    is_valid("θσερ@εχαμπλε.ψομ", Some("Greek"));
}

#[test]
fn test_good_examples_from_wikipedia_25() {
    is_valid("Dörte@Sörensen.example.com", Some("German"));
}

#[test]
fn test_good_examples_from_wikipedia_26() {
    is_valid("коля@пример.рф", Some("Russian"));
}

#[test]
fn test_bad_examples_from_wikipedia_00() {
    expect(
        "Abc.example.com",
        Error::MissingSeparator,
        Some("no @ character"),
    );
}

#[test]
fn test_bad_examples_from_wikipedia_01() {
    expect(
        "A@b@c@example.com",
        Error::InvalidCharacter,
        Some("only one @ is allowed outside quotation marks"),
    );
}

#[test]
fn test_bad_examples_from_wikipedia_02() {
    expect("a\"b(c)d,e:f;g<h>i[j\\k]l@example.com",
        Error::InvalidCharacter,
    Some("none of the special characters in this local-part are allowed outside quotation marks")
    );
}

#[test]
fn test_bad_examples_from_wikipedia_03() {
    expect(
        "just\"not\"right@example.com",
        Error::InvalidCharacter,
        Some(
            "quoted strings must be dot separated or the only element making up the local-part",
        ),
    );
}

#[test]
fn test_bad_examples_from_wikipedia_04() {
    expect("this is\"not\\allowed@example.com",
        Error::InvalidCharacter,
    Some("spaces, quotes, and backslashes may only exist when within quoted strings and preceded by a backslash")
    );
}

#[test]
fn test_bad_examples_from_wikipedia_05() {
    expect("this\\ still\"not\\allowed@example.com",
        Error::InvalidCharacter,
    Some("even if escaped (preceded by a backslash), spaces, quotes, and backslashes must still be contained by quotes")
    );
}

#[test]
fn test_bad_examples_from_wikipedia_06() {
    expect(
        "1234567890123456789012345678901234567890123456789012345678901234+x@example.com",
        Error::LocalPartTooLong,
        Some("local part is longer than 64 characters"),
    );
}

#[test]
fn test_bad_example_01() {
    expect(
        "foo@example.v1234567890123456789012345678901234567890123456789012345678901234v.com",
        Error::SubDomainTooLong,
        Some("domain part is longer than 64 characters"),
    );
}

#[test]
fn test_bad_example_02() {
    expect(
        "@example.com",
        Error::LocalPartEmpty,
        Some("local-part is empty"),
    );
}

#[test]
fn test_bad_example_03() {
    expect(
        "\"\"@example.com",
        Error::LocalPartEmpty,
        Some("local-part is empty"),
    );
}

#[test]
fn test_bad_example_04() {
    expect("simon@", Error::DomainEmpty, Some("domain is empty"));
}

//! The character classes and token recognizers, exercised directly.

use email_address::chars::{
    is_atext, is_ctext_char, is_dtext_char, is_qtext_char, is_special, is_uchar, is_vchar, is_wsp,
};
use email_address::tokens::{check_labels_within, is_atom, is_ctext, is_dot_atom_text, is_dtext_body, is_qcontent};
use email_address::uri::{encode, is_uri_reserved};

#[test]
fn atext_accepts_the_rfc_character_set() {
    for c in "azAZ09!#$%&'*+-/=?^_`{|}~".chars() {
        assert!(is_atext(c), "{c}");
    }
    assert!(is_atext('用'));
    assert!(is_atext('ö'));
    for c in "()<>[]:;@\\,.\" \t".chars() {
        assert!(!is_atext(c), "{c}");
    }
}

#[test]
fn uchar_begins_at_the_non_ascii_range() {
    assert!(!is_uchar('\x7F'));
    assert!(is_uchar('\u{0080}'));
    assert!(is_uchar('\u{10FFFF}'));
}

#[test]
fn vchar_is_printable_ascii() {
    assert!(is_vchar('!'));
    assert!(is_vchar('~'));
    assert!(!is_vchar(' '));
    assert!(!is_vchar('\x7F'));
    assert!(!is_vchar('ö'));
}

#[test]
fn wsp_is_space_or_tab() {
    assert!(is_wsp(' '));
    assert!(is_wsp('\t'));
    assert!(!is_wsp('\n'));
}

#[test]
fn qtext_excludes_quote_and_backslash() {
    assert!(is_qtext_char('!'));
    assert!(is_qtext_char('@'));
    assert!(is_qtext_char('я'));
    assert!(!is_qtext_char('"'));
    assert!(!is_qtext_char('\\'));
    assert!(!is_qtext_char(' '));
}

#[test]
fn dtext_excludes_brackets_and_backslash() {
    assert!(is_dtext_char('!'));
    assert!(is_dtext_char(':'));
    assert!(is_dtext_char('@'));
    assert!(!is_dtext_char('['));
    assert!(!is_dtext_char('\\'));
    assert!(!is_dtext_char(']'));
    assert!(!is_dtext_char('ü'));
}

#[test]
fn ctext_excludes_parentheses_and_backslash() {
    assert!(is_ctext_char('\''));
    assert!(is_ctext_char('*'));
    assert!(!is_ctext_char('('));
    assert!(!is_ctext_char(')'));
    assert!(!is_ctext_char('\\'));
    assert!(is_ctext("'hello*"));
    assert!(!is_ctext("(nested)"));
}

#[test]
fn specials_are_the_rfc_specials() {
    for c in "()<>[]:;@\\,.\"".chars() {
        assert!(is_special(c), "{c}");
    }
    assert!(!is_special('a'));
    assert!(!is_special('!'));
}

#[test]
fn atom_requires_nonempty_atext() {
    assert!(is_atom("simple"));
    assert!(is_atom("a"));
    assert!(!is_atom(""));
    assert!(!is_atom("a.b"));
    assert!(!is_atom("a b"));
}

#[test]
fn dot_atom_text_forbids_empty_segments() {
    assert!(is_dot_atom_text("a"));
    assert!(is_dot_atom_text("a.b.c"));
    assert!(is_dot_atom_text("user.name+tag"));
    assert!(!is_dot_atom_text(""));
    assert!(!is_dot_atom_text("."));
    assert!(!is_dot_atom_text(".a"));
    assert!(!is_dot_atom_text("a."));
    assert!(!is_dot_atom_text("a..b"));
}

#[test]
fn qcontent_handles_quoted_pairs() {
    assert!(is_qcontent(""));
    assert!(is_qcontent("john..doe"));
    assert!(is_qcontent(" "));
    assert!(is_qcontent("Abc@def"));
    assert!(is_qcontent("Joe.\\\\Blow"));
    assert!(!is_qcontent("\\"));
    assert!(!is_qcontent("\\\tx"));
    assert!(!is_qcontent("a\"b"));
}

#[test]
fn dtext_body_accepts_the_empty_body() {
    assert!(is_dtext_body(""));
    assert!(is_dtext_body("192.168.2.1"));
    assert!(is_dtext_body("IPv6:2001:db8::1"));
    assert!(!is_dtext_body("a]b"));
}

#[test]
fn labels_within_bounds_every_run() {
    assert!(check_labels_within("abc.de", 3));
    assert!(!check_labels_within("abcd.e", 3));
    assert!(check_labels_within("", 0));
    assert!(check_labels_within("...", 0));
    assert!(!check_labels_within("..a.", 0));
}

#[test]
fn uri_reserved_set_is_exact() {
    for c in "!#$%&'()*+,/:;=?@[]".chars() {
        assert!(is_uri_reserved(c), "{c}");
    }
    for c in "ab09._~-> <\"\\".chars() {
        assert!(!is_uri_reserved(c), "{c}");
    }
}

#[test]
fn encode_escapes_with_uppercase_hex() {
    assert_eq!(encode("a@b"), "a%40b".to_string());
    assert_eq!(encode("[]"), "%5B%5D".to_string());
    assert_eq!(encode("100%"), "100%25".to_string());
    assert_eq!(encode("no-escapes_here"), "no-escapes_here".to_string());
    assert_eq!(encode(""), "".to_string());
    assert_eq!(encode("!#$%&'()*+,/:;=?@[]"),
        "%21%23%24%25%26%27%28%29%2A%2B%2C%2F%3A%3B%3D%3F%40%5B%5D".to_string());
}

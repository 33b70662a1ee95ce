//! Token recognizers for the `addr-spec` grammar: `atom`, `dot-atom-text`,
//! `qcontent` (quoted-string interiors with `quoted-pair` escaping), and the
//! body of a `domain-literal`.
//!
//! Each production is modelled as a spec predicate over a `Seq<char>`; the
//! executable recognizers scan the string once and are proved to decide the
//! predicate exactly.

use vstd::prelude::*;

use crate::chars::{atext, dtext_char, is_atext, is_dtext_char, is_qtext_char, is_vchar, is_wsp,
    qtext_char, vchar, wsp, ctext_char, is_ctext_char};

verus! {

/// `atom`: non-empty, every character `atext`.
pub open spec fn atom(s: Seq<char>) -> bool {
    s.len() > 0 && forall|i: int| 0 <= i < s.len() ==> atext(#[trigger] s[i])
}

/// `dot-atom-text`: one or more atoms joined by single dots.  Equivalently:
/// non-empty, no leading, trailing or doubled dot, and every character that is
/// not a dot is `atext`.
pub open spec fn dot_atom_text(s: Seq<char>) -> bool {
    &&& s.len() > 0
    &&& s[0] != '.'
    &&& s[s.len() - 1] != '.'
    &&& forall|i: int| 0 < i < s.len() ==> !(#[trigger] s[i] == '.' && s[i - 1] == '.')
    &&& forall|i: int| 0 <= i < s.len() ==> #[trigger] s[i] == '.' || atext(s[i])
}

/// `*qcontent`: a sequence of `qtext`/`WSP` characters and `quoted-pair`s,
/// where `\` must be followed by a `VCHAR` and the pair is consumed whole.
/// The empty sequence is accepted.
pub open spec fn qcontent(s: Seq<char>) -> bool
    decreases s.len(),
{
    if s.len() == 0 {
        true
    } else if s[0] == '\\' {
        s.len() >= 2 && vchar(s[1]) && qcontent(s.skip(2))
    } else {
        (wsp(s[0]) || qtext_char(s[0])) && qcontent(s.skip(1))
    }
}

/// The body of a `domain-literal`: every character `dtext`.  The empty body
/// is accepted here; emptiness of the whole domain is caught at the domain
/// level.
pub open spec fn dtext_body(s: Seq<char>) -> bool {
    forall|i: int| 0 <= i < s.len() ==> dtext_char(#[trigger] s[i])
}

/// `*ctext`: every character legal inside a comment.
pub open spec fn ctext(s: Seq<char>) -> bool {
    forall|i: int| 0 <= i < s.len() ==> ctext_char(#[trigger] s[i])
}

/// The half-open range `[i, j)` of `s` contains no dot.
pub open spec fn dot_free(s: Seq<char>, i: int, j: int) -> bool {
    forall|k: int| i <= k < j ==> #[trigger] s[k] != '.'
}

/// Every dot-free run of `s` has length at most `max`.  A label of a dotted
/// domain is a maximal dot-free run, so this bounds every label.
pub open spec fn labels_within(s: Seq<char>, max: int) -> bool {
    forall|i: int, j: int|
        0 <= i <= j <= s.len() && #[trigger] dot_free(s, i, j) ==> j - i <= max
}

/// Decides [`atom`].
pub fn is_atom(s: &str) -> (r: bool)
    ensures
        r == atom(s@),
{
    let n = s.unicode_len();
    if n == 0 {
        return false;
    }
    let mut i: usize = 0;
    while i < n
        invariant
            i <= n,
            n == s@.len(),
            forall|j: int| 0 <= j < i ==> atext(#[trigger] s@[j]),
        decreases n - i,
    {
        if !is_atext(s.get_char(i)) {
            return false;
        }
        i += 1;
    }
    true
}

/// Decides [`dot_atom_text`].
pub fn is_dot_atom_text(s: &str) -> (r: bool)
    ensures
        r == dot_atom_text(s@),
{
    let n = s.unicode_len();
    if n == 0 {
        return false;
    }
    if s.get_char(0) == '.' || s.get_char(n - 1) == '.' {
        return false;
    }
    let mut i: usize = 0;
    let mut prev_dot = false;
    while i < n
        invariant
            i <= n,
            n == s@.len(),
            prev_dot == (i > 0 && s@[i as int - 1] == '.'),
            forall|j: int| 0 < j < i ==> !(#[trigger] s@[j] == '.' && s@[j - 1] == '.'),
            forall|j: int| 0 <= j < i ==> #[trigger] s@[j] == '.' || atext(s@[j]),
        decreases n - i,
    {
        let c = s.get_char(i);
        if c == '.' {
            if prev_dot {
                return false;
            }
            prev_dot = true;
        } else {
            if !is_atext(c) {
                return false;
            }
            prev_dot = false;
        }
        i += 1;
    }
    true
}

/// Decides [`qcontent`], consuming a whole `quoted-pair` at each `\`.
pub fn is_qcontent(s: &str) -> (r: bool)
    ensures
        r == qcontent(s@),
{
    let n = s.unicode_len();
    let mut i: usize = 0;
    proof {
        assert(s@.skip(0) =~= s@);
    }
    while i < n
        invariant
            i <= n,
            n == s@.len(),
            qcontent(s@) == qcontent(s@.skip(i as int)),
        decreases n - i,
    {
        let c = s.get_char(i);
        if c == '\\' {
            if i + 1 == n {
                return false;
            }
            if !is_vchar(s.get_char(i + 1)) {
                return false;
            }
            proof {
                assert(s@.skip(i as int).skip(2) =~= s@.skip(i as int + 2));
            }
            i += 2;
        } else {
            if !(is_wsp(c) || is_qtext_char(c)) {
                return false;
            }
            proof {
                assert(s@.skip(i as int).skip(1) =~= s@.skip(i as int + 1));
            }
            i += 1;
        }
    }
    proof {
        assert(s@.skip(n as int) =~= Seq::<char>::empty());
    }
    true
}

/// Decides [`dtext_body`].
pub fn is_dtext_body(s: &str) -> (r: bool)
    ensures
        r == dtext_body(s@),
{
    let n = s.unicode_len();
    let mut i: usize = 0;
    while i < n
        invariant
            i <= n,
            n == s@.len(),
            forall|j: int| 0 <= j < i ==> dtext_char(#[trigger] s@[j]),
        decreases n - i,
    {
        if !is_dtext_char(s.get_char(i)) {
            return false;
        }
        i += 1;
    }
    true
}

/// Decides [`ctext`].
pub fn is_ctext(s: &str) -> (r: bool)
    ensures
        r == ctext(s@),
{
    let n = s.unicode_len();
    let mut i: usize = 0;
    while i < n
        invariant
            i <= n,
            n == s@.len(),
            forall|j: int| 0 <= j < i ==> ctext_char(#[trigger] s@[j]),
        decreases n - i,
    {
        if !is_ctext_char(s.get_char(i)) {
            return false;
        }
        i += 1;
    }
    true
}

/// Decides [`labels_within`] for the given bound.
pub fn check_labels_within(s: &str, max: usize) -> (r: bool)
    ensures
        r == labels_within(s@, max as int),
{
    let n = s.unicode_len();
    let mut i: usize = 0;
    let mut run: usize = 0;
    while i < n
        invariant
            i <= n,
            n == s@.len(),
            run <= i,
            run <= max,
            dot_free(s@, i - run, i as int),
            run < i ==> s@[i - run - 1] == '.',
            forall|a: int, b: int|
                0 <= a <= b <= i && #[trigger] dot_free(s@, a, b) ==> b - a <= max,
        decreases n - i,
    {
        let c = s.get_char(i);
        if c == '.' {
            proof {
                assert forall|a: int, b: int|
                    0 <= a <= b <= i + 1 && #[trigger] dot_free(s@, a, b) implies b - a
                    <= max by {
                    if b == i + 1 && a <= i {
                        assert(s@[i as int] == '.');
                        assert(!dot_free(s@, a, b));
                    }
                }
            }
            run = 0;
        } else {
            if run == max {
                proof {
                    assert(dot_free(s@, i - run, i + 1));
                }
                return false;
            }
            proof {
                let start = i - run;
                assert forall|a: int, b: int|
                    0 <= a <= b <= i + 1 && #[trigger] dot_free(s@, a, b) implies b - a
                    <= max by {
                    if b == i + 1 {
                        if a < start {
                            assert(s@[start - 1] == '.');
                            assert(!dot_free(s@, a, b));
                        }
                    }
                }
                assert(dot_free(s@, i - (run + 1) + 1, i + 1));
            }
            run = run + 1;
        }
        i += 1;
    }
    true
}

} // verus!

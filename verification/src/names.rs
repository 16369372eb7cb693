//! DNS naming rules and name derivation.
//!
//! Kubernetes constrains the names appearing in a CRD: the API group is a
//! DNS subdomain, the version and the plural/singular resource names are
//! DNS labels (RFC 1123).  The plural name, when not overridden, is derived
//! from the kind by lower-casing it and applying a fixed suffix rule.

use vstd::prelude::*;

verus! {

/// A lower-case letter or a digit: the characters a DNS label may start
/// and end with.
pub open spec fn is_lower_alnum(c: char) -> bool {
    ('a' <= c && c <= 'z') || ('0' <= c && c <= '9')
}

/// A character allowed anywhere inside a DNS label.
pub open spec fn is_label_char(c: char) -> bool {
    is_lower_alnum(c) || c == '-'
}

/// RFC 1123 DNS label: 1 to 63 lower-case alphanumeric characters or
/// hyphens, starting and ending with an alphanumeric character.
pub open spec fn dns_label(s: Seq<char>) -> bool {
    &&& 1 <= s.len() <= 63
    &&& forall|i: int| 0 <= i < s.len() ==> is_label_char(#[trigger] s[i])
    &&& is_lower_alnum(s[0])
    &&& is_lower_alnum(s[s.len() - 1])
}

fn is_lower_alnum_exec(c: char) -> (r: bool)
    ensures
        r == is_lower_alnum(c),
{
    ('a' <= c && c <= 'z') || ('0' <= c && c <= '9')
}

fn is_label_char_exec(c: char) -> (r: bool)
    ensures
        r == is_label_char(c),
{
    is_lower_alnum_exec(c) || c == '-'
}

/// Decides whether `s` is an RFC 1123 DNS label.
pub fn is_dns_label(s: &str) -> (r: bool)
    ensures
        r == dns_label(s@),
{
    let n = s.unicode_len();
    if n == 0 || n > 63 {
        return false;
    }
    let mut i: usize = 0;
    while i < n
        invariant
            0 <= i <= n,
            n == s@.len(),
            1 <= n <= 63,
            forall|j: int| 0 <= j < i ==> is_label_char(#[trigger] s@[j]),
        decreases n - i,
    {
        if !is_label_char_exec(s.get_char(i)) {
            return false;
        }
        i += 1;
    }
    is_lower_alnum_exec(s.get_char(0)) && is_lower_alnum_exec(s.get_char(n - 1))
}

/// A character allowed anywhere inside a DNS subdomain.
pub open spec fn is_subdomain_char(c: char) -> bool {
    is_label_char(c) || c == '.'
}

/// The number of consecutive non-dot characters of `s` ending at
/// position `i`: the length of the current DNS label up to there.
pub open spec fn label_run(s: Seq<char>, i: int) -> nat
    decreases i + 1,
{
    if i < 0 || i >= s.len() || s[i] == '.' {
        0
    } else {
        1 + label_run(s, i - 1)
    }
}

/// RFC 1123 DNS subdomain: at most 253 characters, a non-empty sequence of
/// DNS labels separated by dots.  Stated character-wise: every character is
/// a label character or a dot, the first and last characters are
/// alphanumeric, every dot has alphanumeric neighbours on both sides, and
/// no label is longer than 63 characters.
pub open spec fn dns_subdomain(s: Seq<char>) -> bool {
    &&& 1 <= s.len() <= 253
    &&& forall|i: int| 0 <= i < s.len() ==> is_subdomain_char(#[trigger] s[i])
    &&& is_lower_alnum(s[0])
    &&& is_lower_alnum(s[s.len() - 1])
    &&& forall|i: int|
        0 <= i < s.len() && #[trigger] s[i] == '.' ==> 0 < i < s.len() - 1 && is_lower_alnum(
            s[i - 1],
        ) && is_lower_alnum(s[i + 1])
    &&& forall|i: int| 0 <= i < s.len() ==> #[trigger] label_run(s, i) <= 63
}

/// Decides whether `s` is an RFC 1123 DNS subdomain.
#[verifier::rlimit(60)]
pub fn is_dns_subdomain(s: &str) -> (r: bool)
    ensures
        r == dns_subdomain(s@),
{
    let n = s.unicode_len();
    if n == 0 || n > 253 {
        return false;
    }
    // `run` is the length of the maximal dot-free suffix of the processed
    // prefix; `prev_alnum` says whether the previous character was
    // alphanumeric.
    let mut i: usize = 0;
    let mut run: usize = 0;
    let mut prev_alnum: bool = false;
    while i < n
        invariant
            0 <= i <= n,
            n == s@.len(),
            1 <= n <= 253,
            run <= i,
            run <= 63,
            forall|j: int| 0 <= j < i ==> is_subdomain_char(#[trigger] s@[j]),
            i > 0 ==> is_lower_alnum(s@[0]),
            i == 0 ==> prev_alnum == false,
            i > 0 ==> prev_alnum == is_lower_alnum(s@[i - 1]),
            forall|j: int|
                0 <= j < i && #[trigger] s@[j] == '.' ==> 0 < j && is_lower_alnum(s@[j - 1]) && (j
                    + 1 < i ==> is_lower_alnum(s@[j + 1])),
            run == label_run(s@, i - 1),
            forall|j: int| 0 <= j < i ==> #[trigger] label_run(s@, j) <= 63,
        decreases n - i,
    {
        let c = s.get_char(i);
        if c == '.' {
            if !prev_alnum {
                // A leading dot, a dot after a dot, or a dot after a hyphen.
                return false;
            }
            run = 0;
        } else {
            if !is_label_char_exec(c) {
                return false;
            }
            if run == 0 && i > 0 && !is_lower_alnum_exec(c) {
                // A hyphen directly after a dot.
                proof {
                    assert(label_run(s@, i - 1) == 0);
                    assert(s@[i - 1] == '.');
                }
                return false;
            }
            if i == 0 && !is_lower_alnum_exec(c) {
                return false;
            }
            if run == 63 {
                // A 64th consecutive character without a dot: this label is
                // longer than 63 characters.
                proof {
                    assert(label_run(s@, i as int) == 64);
                }
                return false;
            }
            run = run + 1;
        }
        prev_alnum = is_lower_alnum_exec(c);
        i += 1;
        proof {
            assert(label_run(s@, i - 1) == run);
        }
    }
    if !prev_alnum {
        return false;
    }
    true
}

/// ASCII lower-casing of a single character; other characters are kept.
pub open spec fn lower_char(c: char) -> char {
    if 'A' <= c && c <= 'Z' {
        (((c as u8) + 32) as u8) as char
    } else {
        c
    }
}

/// ASCII lower-casing of a character sequence.
pub open spec fn lower_chars(s: Seq<char>) -> Seq<char> {
    s.map_values(|c: char| lower_char(c))
}

/// Relies on String::push: appends the given character at the end.
#[verifier::external_body]
pub(crate) fn push_char(s: &mut String, c: char)
    ensures
        final(s)@ == old(s)@.push(c),
{
    s.push(c);
}

fn lower_char_exec(c: char) -> (r: char)
    ensures
        r == lower_char(c),
{
    if 'A' <= c && c <= 'Z' {
        (((c as u8) + 32) as u8) as char
    } else {
        c
    }
}

/// Lower-cases the ASCII letters of `s`, keeping every other character.
pub fn to_ascii_lower(s: &str) -> (r: String)
    ensures
        r@ == lower_chars(s@),
{
    let n = s.unicode_len();
    let mut r = String::new();
    let mut i: usize = 0;
    while i < n
        invariant
            0 <= i <= n,
            n == s@.len(),
            r@.len() == i,
            forall|j: int| 0 <= j < i ==> r@[j] == lower_char(#[trigger] s@[j]),
        decreases n - i,
    {
        let c = lower_char_exec(s.get_char(i));
        push_char(&mut r, c);
        i += 1;
    }
    proof {
        assert(r@ =~= lower_chars(s@));
    }
    r
}

/// The letters the suffix rule treats as vowels.
pub open spec fn is_vowel(c: char) -> bool {
    c == 'a' || c == 'e' || c == 'i' || c == 'o' || c == 'u'
}

/// The fixed pluralization suffix rule, applied to an already
/// lower-cased singular name: words ending in `s`, `x`, `z`, `ch` or
/// `sh` take `es`; words ending in `y` after a consonant replace the
/// `y` with `ies`; every other word takes `s`.
pub open spec fn plural_of(w: Seq<char>) -> Seq<char> {
    if w.len() == 0 {
        w
    } else if w.last() == 's' || w.last() == 'x' || w.last() == 'z' || (w.len() >= 2 && w[w.len()
        - 2] == 'c' && w.last() == 'h') || (w.len() >= 2 && w[w.len() - 2] == 's' && w.last()
        == 'h') {
        w + "es"@
    } else if w.last() == 'y' && !(w.len() >= 2 && is_vowel(w[w.len() - 2])) {
        w.drop_last() + "ies"@
    } else {
        w + "s"@
    }
}

/// Pluralizes a (lower-cased) singular name by the fixed suffix rule.
pub fn pluralize(w: &str) -> (r: String)
    ensures
        r@ == plural_of(w@),
{
    let n = w.unicode_len();
    if n == 0 {
        return w.to_owned();
    }
    let last = w.get_char(n - 1);
    let prev = if n >= 2 {
        Some(w.get_char(n - 2))
    } else {
        None
    };
    if last == 's' || last == 'x' || last == 'z' || (n >= 2 && prev == Some('c') && last == 'h')
        || (n >= 2 && prev == Some('s') && last == 'h') {
        let mut r = w.to_owned();
        r.append("es");
        proof {
            reveal_strlit("es");
            assert(r@ =~= plural_of(w@));
        }
        r
    } else if last == 'y' && !(n >= 2 && (prev == Some('a') || prev == Some('e') || prev == Some(
        'i',
    ) || prev == Some('o') || prev == Some('u'))) {
        let mut r = w.substring_char(0, n - 1).to_owned();
        r.append("ies");
        proof {
            reveal_strlit("ies");
            assert(r@ =~= plural_of(w@));
        }
        r
    } else {
        let mut r = w.to_owned();
        r.append("s");
        proof {
            reveal_strlit("s");
            assert(r@ =~= plural_of(w@));
        }
        r
    }
}

} // verus!

//! Dot paths: `.spec.replicas` and friends.
//!
//! CEL rule field paths, printer-column JSON paths and selectable-field
//! paths are all dot paths: a leading dot followed by one or more
//! non-empty, dot-free segments separated by dots.

use vstd::prelude::*;

use crate::names::push_char;

verus! {

/// A well-shaped dot path: a leading dot, then one or more non-empty
/// segments separated by single dots.
pub open spec fn dot_path_wf(s: Seq<char>) -> bool {
    &&& s.len() >= 2
    &&& s[0] == '.'
    &&& s[s.len() - 1] != '.'
    &&& forall|i: int| 0 <= i < s.len() - 1 ==> !(#[trigger] s[i] == '.' && s[i + 1] == '.')
}

/// The position of the first dot at or after `i`, or the length of `s`
/// when there is none.
pub open spec fn seg_end(s: Seq<char>, i: int) -> int
    decreases s.len() - i,
{
    if i < 0 {
        0
    } else if i >= s.len() {
        s.len() as int
    } else if s[i] == '.' {
        i
    } else {
        seg_end(s, i + 1)
    }
}

/// The segments of `s` from position `j` on, split at dots.
pub open spec fn segs_from(s: Seq<char>, j: int) -> Seq<Seq<char>>
    decreases s.len() - j,
{
    if j < 0 || j > s.len() {
        Seq::empty()
    } else {
        let e0 = seg_end(s, j);
        let e = if e0 < j {
            j
        } else if e0 > s.len() {
            s.len() as int
        } else {
            e0
        };
        let rest = if e + 1 <= s.len() {
            segs_from(s, e + 1)
        } else {
            Seq::empty()
        };
        seq![s.subrange(j, e)] + rest
    }
}

/// The segments of a well-shaped dot path.
pub open spec fn path_segs(s: Seq<char>) -> Seq<Seq<char>> {
    segs_from(s, 1)
}

/// `seg_end` is determined by the stretch of non-dot characters.
proof fn lemma_seg_end(s: Seq<char>, j: int, e: int)
    requires
        0 <= j <= e <= s.len(),
        forall|k: int| j <= k < e ==> s[k] != '.',
        e == s.len() || s[e] == '.',
    ensures
        seg_end(s, j) == e,
    decreases e - j,
{
    if j < e {
        lemma_seg_end(s, j + 1, e);
    }
}

/// Splits a dot path into its segments: `Some` exactly on well-shaped
/// paths, and then the result is the segment list in order.
pub fn parse_dot_path(s: &str) -> (r: Option<Vec<String>>)
    ensures
        r is Some <==> dot_path_wf(s@),
        r matches Some(v) ==> v.deep_view() == path_segs(s@) && v@.len() >= 1,
{
    let n = s.unicode_len();
    if n < 2 {
        return None;
    }
    if s.get_char(0) != '.' {
        return None;
    }
    let mut done: Vec<String> = Vec::new();
    let mut cur = String::new();
    let mut start: usize = 1;
    let mut i: usize = 1;
    while i < n
        invariant
            1 <= start <= i <= n,
            2 <= n,
            n == s@.len(),
            s@[0] == '.',
            cur@ == s@.subrange(start as int, i as int),
            forall|k: int| start <= k < i ==> s@[k] != '.',
            s@[start - 1] == '.',
            segs_from(s@, 1) =~= done.deep_view() + segs_from(s@, start as int),
            forall|k: int| 0 <= k < i - 1 ==> !(#[trigger] s@[k] == '.' && s@[k + 1] == '.'),
        decreases n - i,
    {
        let c = s.get_char(i);
        if c == '.' {
            if cur.as_str().is_empty() {
                // Two dots in a row (the previous character was a dot).
                proof {
                    assert(start == i);
                    assert(s@[i - 1] == '.' && s@[i as int] == '.');
                }
                return None;
            }
            proof {
                lemma_seg_end(s@, start as int, i as int);
                assert(segs_from(s@, start as int) =~= seq![cur@] + segs_from(s@, i + 1));
            }
            let ghost old_deep = done.deep_view();
            done.push(cur);
            proof {
                assert(done.deep_view() =~= old_deep + seq![s@.subrange(start as int, i as int)]);
                assert(done.deep_view() + segs_from(s@, i + 1) =~= old_deep + segs_from(
                    s@,
                    start as int,
                ));
            }
            cur = String::new();
            start = i + 1;
        } else {
            push_char(&mut cur, c);
            proof {
                assert(cur@ =~= s@.subrange(start as int, i + 1));
            }
        }
        i += 1;
    }
    if cur.as_str().is_empty() {
        // The path ends in a dot.
        proof {
            assert(start == n);
            assert(s@[n - 1] == '.');
        }
        return None;
    }
    proof {
        lemma_seg_end(s@, start as int, n as int);
        assert(segs_from(s@, start as int) =~= seq![cur@]);
        assert(start < n);
        assert(s@[n - 1] != '.');
    }
    let ghost old_deep = done.deep_view();
    let ghost last = cur@;
    done.push(cur);
    proof {
        assert(done.deep_view() =~= old_deep + seq![last]);
        assert(done.deep_view() =~= path_segs(s@));
    }
    Some(done)
}

} // verus!

//! Small verified helpers on strings and on segment paths.
//!
//! A filesystem path is modelled as the sequence of its non-empty segments:
//! `/a//b/` and `/a/b` both stand for `["a", "b"]`.

use vstd::prelude::*;
use vstd::string::StrSliceExecFns;
use vstd::string::StringExecFns;

verus! {

/// Relies on String::push: appends exactly the given character.
#[verifier::external_body]
pub(crate) fn push_char(s: &mut String, c: char)
    ensures
        final(s)@ == old(s)@.push(c),
{
    s.push(c);
}

/// Character-for-character equality of two string slices.
pub fn str_eq(a: &str, b: &str) -> (r: bool)
    ensures
        r == (a@ == b@),
{
    String::from_str(a) == String::from_str(b)
}

/// Whether a file name carries the content extension: it ends in `.md` and
/// has at least one character before the dot.
pub open spec fn spec_is_md(name: Seq<char>) -> bool {
    name.len() >= 4 && name.skip(name.len() - 3) == ".md"@
}

/// Whether `name` names a content document.
pub fn is_md_name(name: &str) -> (r: bool)
    ensures
        r == spec_is_md(name@),
{
    let n = name.unicode_len();
    if n < 4 {
        return false;
    }
    let tail = name.substring_char(n - 3, n);
    proof {
        assert(name@.skip(name@.len() - 3) =~= name@.subrange(n - 3, n as int));
    }
    str_eq(tail, ".md")
}

/// A copy of a segment vector, equal to what it copies.
pub fn clone_segments(v: &Vec<String>) -> (r: Vec<String>)
    ensures
        r@ == v@,
{
    let mut r: Vec<String> = Vec::new();
    let mut i: usize = 0;
    while i < v.len()
        invariant
            i <= v.len(),
            r@ == v@.take(i as int),
        decreases v.len() - i,
    {
        r.push(v[i].clone());
        proof {
            assert(v@.take(i + 1 as int) =~= v@.take(i as int).push(v@[i as int]));
        }
        i += 1;
    }
    proof {
        assert(r@ =~= v@);
    }
    r
}

/// A copy of a key/value pair vector, equal to what it copies.
pub fn clone_pairs(v: &Vec<(String, String)>) -> (r: Vec<(String, String)>)
    ensures
        r@ == v@,
{
    let mut r: Vec<(String, String)> = Vec::new();
    let mut i: usize = 0;
    while i < v.len()
        invariant
            i <= v.len(),
            r@ == v@.take(i as int),
        decreases v.len() - i,
    {
        let pair = (v[i].0.clone(), v[i].1.clone());
        r.push(pair);
        proof {
            assert(v@.take(i + 1 as int) =~= v@.take(i as int).push(v@[i as int]));
        }
        i += 1;
    }
    proof {
        assert(r@ =~= v@);
    }
    r
}

/// Whether segment path `p` is a prefix of segment path `q`.
pub open spec fn spec_is_prefix(p: Seq<Seq<char>>, q: Seq<Seq<char>>) -> bool {
    p.len() <= q.len() && q.take(p.len() as int) == p
}

/// Whether `p` is a prefix of `q`, segment for segment.
pub fn is_prefix_of(p: &Vec<String>, q: &Vec<String>) -> (r: bool)
    ensures
        r == spec_is_prefix(p.deep_view(), q.deep_view()),
{
    if p.len() > q.len() {
        return false;
    }
    let mut i: usize = 0;
    while i < p.len()
        invariant
            i <= p.len() <= q.len(),
            p.len() == p.deep_view().len(),
            q.len() == q.deep_view().len(),
            forall|j: int| 0 <= j < i ==> p.deep_view()[j] == q.deep_view()[j],
        decreases p.len() - i,
    {
        if !str_eq(p[i].as_str(), q[i].as_str()) {
            assert(p.deep_view()[i as int] != q.deep_view()[i as int]);
            return false;
        }
        i += 1;
    }
    proof {
        assert(q.deep_view().take(p.deep_view().len() as int) =~= p.deep_view());
    }
    true
}

/// The segments of `v` from position `n` on.
pub fn skip_segments(v: &Vec<String>, n: usize) -> (r: Vec<String>)
    requires
        n <= v.len(),
    ensures
        r.deep_view() == v.deep_view().skip(n as int),
{
    let mut r: Vec<String> = Vec::new();
    let mut i: usize = n;
    proof {
        assert(r.deep_view() =~= v.deep_view().subrange(n as int, n as int));
    }
    while i < v.len()
        invariant
            n <= i <= v.len(),
            r.deep_view() == v.deep_view().subrange(n as int, i as int),
        decreases v.len() - i,
    {
        let ghost r0 = r.deep_view();
        r.push(v[i].clone());
        proof {
            assert(r.deep_view() =~= r0.push(v.deep_view()[i as int]));
            assert(r.deep_view() =~= v.deep_view().subrange(n as int, i + 1 as int));
        }
        i += 1;
    }
    proof {
        assert(r.deep_view() =~= v.deep_view().skip(n as int));
    }
    r
}

/// The segments of `a` followed by those of `b`.
pub fn concat_segments(a: &Vec<String>, b: &Vec<String>) -> (r: Vec<String>)
    ensures
        r.deep_view() == a.deep_view() + b.deep_view(),
{
    let mut r = clone_segments(a);
    let mut i: usize = 0;
    proof {
        assert(r.deep_view() =~= a.deep_view() + b.deep_view().take(0));
    }
    while i < b.len()
        invariant
            i <= b.len(),
            r.deep_view() == a.deep_view() + b.deep_view().take(i as int),
        decreases b.len() - i,
    {
        let ghost r0 = r.deep_view();
        r.push(b[i].clone());
        proof {
            assert(r.deep_view() =~= r0.push(b.deep_view()[i as int]));
            assert(r.deep_view() =~= a.deep_view() + b.deep_view().take(i + 1 as int));
        }
        i += 1;
    }
    proof {
        assert(r.deep_view() =~= a.deep_view() + b.deep_view());
    }
    r
}

/// Length of the leading run of non-separator characters.
pub open spec fn seg_len(s: Seq<char>) -> int
    decreases s.len(),
{
    if s.len() == 0 || s[0] == '/' {
        0
    } else {
        1 + seg_len(s.skip(1))
    }
}

pub proof fn lemma_seg_len_bounds(s: Seq<char>)
    ensures
        0 <= seg_len(s) <= s.len(),
        seg_len(s) < s.len() ==> s[seg_len(s)] == '/',
        forall|k: int| 0 <= k < seg_len(s) ==> s[k] != '/',
    decreases s.len(),
{
    if s.len() == 0 || s[0] == '/' {
    } else {
        lemma_seg_len_bounds(s.skip(1));
        assert forall|k: int| 0 <= k < seg_len(s) implies s[k] != '/' by {
            if k > 0 {
                assert(s.skip(1)[k - 1] != '/');
            }
        }
    }
}

/// The non-empty segments of a path string, in order.
pub open spec fn spec_split_path(s: Seq<char>) -> Seq<Seq<char>>
    decreases s.len(),
    via spec_split_path_decreases
{
    if s.len() == 0 {
        Seq::empty()
    } else if s[0] == '/' {
        spec_split_path(s.skip(1))
    } else {
        seq![s.take(seg_len(s))] + spec_split_path(s.skip(seg_len(s)))
    }
}

#[via_fn]
proof fn spec_split_path_decreases(s: Seq<char>) {
    lemma_seg_len_bounds(s);
}

/// Split a path string into its non-empty segments.
pub fn split_path(s: &str) -> (r: Vec<String>)
    ensures
        r.deep_view() == spec_split_path(s@),
{
    let r = split_path_from(s, 0);
    proof {
        assert(s@.skip(0) =~= s@);
    }
    r
}

/// Split the suffix of `s` that starts at character `i`.
fn split_path_from(s: &str, i: usize) -> (r: Vec<String>)
    requires
        i <= s@.len(),
    ensures
        r.deep_view() == spec_split_path(s@.skip(i as int)),
    decreases s@.len() - i,
{
    let n = s.unicode_len();
    if i == n {
        let r: Vec<String> = Vec::new();
        proof {
            assert(s@.skip(i as int) =~= Seq::<char>::empty());
            assert(r.deep_view() =~= spec_split_path(s@.skip(i as int)));
        }
        return r;
    }
    if s.get_char(i) == '/' {
        let r = split_path_from(s, i + 1);
        proof {
            assert(s@.skip(i as int).skip(1) =~= s@.skip(i + 1 as int));
        }
        return r;
    }
    // Scan to the end of the current segment.
    let ghost suffix = s@.skip(i as int);
    let mut j: usize = i + 1;
    while j < n && s.get_char(j) != '/'
        invariant
            i < j <= n,
            n == s@.len(),
            forall|k: int| i <= k < j ==> s@[k] != '/',
        decreases n - j,
    {
        j += 1;
    }
    proof {
        lemma_seg_len_at(suffix, j - i);
    }
    let seg = String::from_str(s.substring_char(i, j));
    let mut r = split_path_from(s, j);
    r.insert(0, seg);
    proof {
        assert(suffix.take(seg_len(suffix)) =~= s@.subrange(i as int, j as int));
        assert(suffix.skip(seg_len(suffix)) =~= s@.skip(j as int));
        assert(r.deep_view() =~= seq![suffix.take(seg_len(suffix))] + spec_split_path(
            suffix.skip(seg_len(suffix)),
        ));
    }
    r
}

/// If the first `m` characters are not separators and the character at `m`
/// (if any) is one, then the leading segment has length exactly `m`.
proof fn lemma_seg_len_at(s: Seq<char>, m: int)
    requires
        0 <= m <= s.len(),
        forall|k: int| 0 <= k < m ==> s[k] != '/',
        m == s.len() || s[m] == '/',
    ensures
        seg_len(s) == m,
    decreases s.len(),
{
    if m == 0 {
    } else {
        assert(s[0] != '/');
        assert forall|k: int| 0 <= k < m - 1 implies s.skip(1)[k] != '/' by {
            assert(s.skip(1)[k] == s[k + 1]);
        }
        if m - 1 < s.skip(1).len() {
            assert(s.skip(1)[m - 1] == s[m]);
        }
        lemma_seg_len_at(s.skip(1), m - 1);
    }
}

} // verus!

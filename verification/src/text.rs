//! Verified string utilities: equality, concatenation, and
//! occurrence replacement over character sequences.

use vstd::prelude::*;
use vstd::string::StrSliceExecFns;
use vstd::string::StringExecFns;

verus! {

/// Replaces every non-overlapping occurrence of `pat` in `s` by `sub`,
/// scanning left to right.
pub open spec fn spec_replace(s: Seq<char>, pat: Seq<char>, sub: Seq<char>) -> Seq<char>
    decreases s.len(),
    when pat.len() > 0
{
    if s.len() < pat.len() {
        s
    } else if s.subrange(0, pat.len() as int) == pat {
        sub + spec_replace(s.skip(pat.len() as int), pat, sub)
    } else {
        seq![s[0]] + spec_replace(s.skip(1), pat, sub)
    }
}

/// Whether `p` is a prefix of `s`.
pub open spec fn spec_starts_with(s: Seq<char>, p: Seq<char>) -> bool {
    s.len() >= p.len() && s.subrange(0, p.len() as int) == p
}

/// Appending one element to a vector appends its model.
pub proof fn lemma_push_deep_view<T: DeepView>(a: Vec<T>, b: Vec<T>, x: T)
    requires
        b@ == a@.push(x),
    ensures
        b.deep_view() == a.deep_view().push(x.deep_view()),
{
    assert forall|k: int| 0 <= k < b@.len() implies b.deep_view()[k] == a.deep_view().push(
        x.deep_view(),
    )[k] by {
        assert(b.deep_view()[k] == b@[k].deep_view());
        if k < a@.len() {
            assert(a.deep_view()[k] == a@[k].deep_view());
        }
    }
    assert(b.deep_view() =~= a.deep_view().push(x.deep_view()));
}

/// Whether `s` starts with `p`.
pub fn str_starts_with(s: &str, p: &str) -> (r: bool)
    ensures
        r == spec_starts_with(s@, p@),
{
    let n = s.unicode_len();
    let m = p.unicode_len();
    if m > n {
        return false;
    }
    let mut j: usize = 0;
    while j < m
        invariant
            n == s@.len(),
            m == p@.len(),
            m <= n,
            j <= m,
            forall|k: int| 0 <= k < j ==> s@[k] == p@[k],
        decreases m - j,
    {
        if s.get_char(j) != p.get_char(j) {
            proof {
                assert(s@.subrange(0, m as int)[j as int] != p@[j as int]);
            }
            return false;
        }
        j = j + 1;
    }
    proof {
        assert(s@.subrange(0, m as int) =~= p@);
    }
    true
}

/// Compares two string slices by their character sequences.
pub fn str_eq(a: &str, b: &str) -> (r: bool)
    ensures
        r == (a@ == b@),
{
    let sa: String = a.to_owned();
    let sb: String = b.to_owned();
    sa == sb
}

/// Concatenates two string slices.
pub fn concat2(a: &str, b: &str) -> (r: String)
    ensures
        r@ == a@ + b@,
{
    let mut r = a.to_owned();
    r.append(b);
    r
}

/// Concatenates three string slices.
pub fn concat3(a: &str, b: &str, c: &str) -> (r: String)
    ensures
        r@ == a@ + b@ + c@,
{
    let mut r = a.to_owned();
    r.append(b);
    r.append(c);
    r
}

/// Replaces every non-overlapping occurrence of `pat` in `s` by `sub`.
pub fn replace_all(s: &str, pat: &str, sub: &str) -> (r: String)
    requires
        pat@.len() > 0,
    ensures
        r@ == spec_replace(s@, pat@, sub@),
{
    let n = s.unicode_len();
    let m = pat.unicode_len();
    let mut out = String::new();
    let mut seg_start: usize = 0;
    let mut i: usize = 0;
    proof {
        assert(s@.skip(0) =~= s@);
        assert(out@ + s@.subrange(0, 0) + spec_replace(s@, pat@, sub@)
            =~= spec_replace(s@, pat@, sub@));
    }
    while i < n
        invariant
            n == s@.len(),
            m == pat@.len(),
            0 < m,
            seg_start <= i <= n,
            spec_replace(s@, pat@, sub@) == out@ + s@.subrange(seg_start as int, i as int)
                + spec_replace(s@.skip(i as int), pat@, sub@),
        decreases n - i,
    {
        let mut matched = false;
        if m <= n - i {
            matched = true;
            let mut j: usize = 0;
            while j < m
                invariant
                    n == s@.len(),
                    m == pat@.len(),
                    i + m <= n,
                    j <= m,
                    matched ==> forall|k: int| 0 <= k < j ==> s@[i + k] == pat@[k],
                    !matched ==> exists|k: int| 0 <= k < m && s@[i + k] != pat@[k],
                decreases m - j,
            {
                if s.get_char(i + j) != pat.get_char(j) {
                    matched = false;
                    j = m;
                } else {
                    j = j + 1;
                }
            }
        }
        if matched {
            proof {
                assert(s@.skip(i as int).subrange(0, m as int) =~= pat@);
                assert(s@.skip(i as int).skip(m as int) =~= s@.skip(i + m));
            }
            let piece = s.substring_char(seg_start, i);
            out.append(piece);
            out.append(sub);
            proof {
                assert(out@ + s@.subrange((i + m) as int, (i + m) as int)
                    + spec_replace(s@.skip(i + m), pat@, sub@)
                    =~= spec_replace(s@, pat@, sub@));
            }
            i = i + m;
            seg_start = i;
        } else {
            proof {
                if m <= n - i {
                    let head = s@.skip(i as int);
                    assert(head.subrange(0, m as int) != pat@) by {
                        let k = choose|k: int| 0 <= k < m && s@[i + k] != pat@[k];
                        assert(head.subrange(0, m as int)[k] == s@[i + k]);
                    }
                    assert(seq![head[0]] + spec_replace(head.skip(1), pat@, sub@)
                        == spec_replace(head, pat@, sub@));
                }
                assert(s@.skip(i as int).skip(1) =~= s@.skip(i + 1));
                assert(s@.subrange(seg_start as int, i + 1)
                    =~= s@.subrange(seg_start as int, i as int) + seq![s@[i as int]]);
                assert(out@ + s@.subrange(seg_start as int, i + 1)
                    + spec_replace(s@.skip(i + 1), pat@, sub@)
                    =~= spec_replace(s@, pat@, sub@));
            }
            i = i + 1;
        }
    }
    let tail = s.substring_char(seg_start, n);
    out.append(tail);
    proof {
        assert(s@.skip(n as int).len() == 0);
        assert(spec_replace(s@.skip(n as int), pat@, sub@) == s@.skip(n as int));
        assert(out@ =~= spec_replace(s@, pat@, sub@));
    }
    out
}

} // verus!

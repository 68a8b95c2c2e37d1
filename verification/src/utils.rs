//! Path utilities.

use vstd::prelude::*;
use crate::text::{replace_all, spec_replace};

verus! {

/// A path with every backslash separator replaced by a forward slash.
pub open spec fn spec_normalized(s: Seq<char>) -> Seq<char> {
    s.map_values(|c: char| if c == '\\' { '/' } else { c })
}

/// Replacing one single character by another, occurrence by occurrence,
/// maps each character independently.
proof fn lemma_replace_single_char(s: Seq<char>)
    ensures
        spec_replace(s, seq!['\\'], seq!['/']) == spec_normalized(s),
    decreases s.len(),
{
    let pat = seq!['\\'];
    let sub = seq!['/'];
    if s.len() == 0 {
        assert(spec_normalized(s) =~= s);
    } else {
        lemma_replace_single_char(s.skip(1));
        if s.subrange(0, 1) == pat {
            assert(s[0] == '\\') by {
                assert(s.subrange(0, 1)[0] == s[0]);
            }
            assert(spec_normalized(s) =~= sub + spec_normalized(s.skip(1)));
        } else {
            assert(s[0] != '\\') by {
                if s[0] == '\\' {
                    assert(s.subrange(0, 1) =~= pat);
                }
            }
            assert(spec_normalized(s) =~= seq![s[0]] + spec_normalized(s.skip(1)));
        }
    }
}

/// Normalizes a path to forward-slash separators.
pub fn normalize_path(path: &str) -> (r: String)
    ensures
        r@ == spec_normalized(path@),
{
    proof {
        reveal_strlit("\\");
        reveal_strlit("/");
        assert("\\"@ =~= seq!['\\']);
        assert("/"@ =~= seq!['/']);
    }
    let r = replace_all(path, "\\", "/");
    proof {
        lemma_replace_single_char(path@);
    }
    r
}

} // verus!

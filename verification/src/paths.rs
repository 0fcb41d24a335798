//! A plain-string model of filesystem paths.
//!
//! The pipeline only ever joins paths and strips prefixes at component
//! boundaries, so a path is held as a `String` and those two operations are
//! defined here, with exact specifications.

use vstd::prelude::*;

verus! {

/// Whether `s` begins with the characters of `pre`.
pub open spec fn spec_starts_with(s: Seq<char>, pre: Seq<char>) -> bool {
    pre.len() <= s.len() && s.subrange(0, pre.len() as int) == pre
}

/// `a` with the relative path `b` appended: an absolute `b` replaces `a`, and
/// a separator is inserted unless `a` already ends with one.
pub open spec fn spec_join_path(a: Seq<char>, b: Seq<char>) -> Seq<char> {
    if b.len() > 0 && b[0] == '/' {
        b
    } else if b.len() == 0 {
        a
    } else if a.len() == 0 {
        b
    } else if a[a.len() - 1] == '/' {
        a + b
    } else {
        a + seq!['/'] + b
    }
}

/// `p` without the leading component `pre`: defined when `p` equals `pre` or
/// continues it across a separator, and the result carries no leading
/// separator.
pub open spec fn spec_strip_prefix(p: Seq<char>, pre: Seq<char>) -> Option<Seq<char>> {
    if p == pre {
        Some(Seq::empty())
    } else if pre.len() + 1 <= p.len() && p.subrange(0, pre.len() as int) == pre && p[
        pre.len() as int] == '/' {
        Some(p.subrange(pre.len() as int + 1, p.len() as int))
    } else {
        None
    }
}

/// Whether `s` begins with the characters of `pre`.
pub fn starts_with(s: &str, pre: &str) -> (r: bool)
    ensures
        r == spec_starts_with(s@, pre@),
{
    let s_len = s.unicode_len();
    let pre_len = pre.unicode_len();
    if pre_len > s_len {
        proof {
            assert(!spec_starts_with(s@, pre@));
        }
        return false;
    }
    let mut i: usize = 0;
    while i < pre_len
        invariant
            s_len == s@.len(),
            pre_len == pre@.len(),
            pre_len <= s_len,
            i <= pre_len,
            forall|j: int| 0 <= j < i ==> s@[j] == pre@[j],
        decreases pre_len - i,
    {
        if s.get_char(i) != pre.get_char(i) {
            proof {
                assert(s@.subrange(0, pre@.len() as int)[i as int] != pre@[i as int]);
            }
            return false;
        }
        i = i + 1;
    }
    proof {
        assert(s@.subrange(0, pre@.len() as int) =~= pre@);
    }
    true
}

/// Joins `a` and `b` as [`spec_join_path`] describes.
pub fn join_path(a: &str, b: &str) -> (r: String)
    ensures
        r@ == spec_join_path(a@, b@),
{
    let a_len = a.unicode_len();
    let b_len = b.unicode_len();
    if b_len > 0 && b.get_char(0) == '/' {
        return String::from_str(b);
    }
    if b_len == 0 {
        return String::from_str(a);
    }
    if a_len == 0 {
        return String::from_str(b);
    }
    let mut r = String::from_str(a);
    if a.get_char(a_len - 1) != '/' {
        r.append("/");
        proof {
            reveal_strlit("/");
            assert(r@ =~= a@ + seq!['/']);
        }
    }
    r.append(b);
    proof {
        if a@[a@.len() - 1] != '/' {
            assert(r@ =~= a@ + seq!['/'] + b@);
        }
    }
    r
}

/// Strips the leading component `pre` from `p`, as [`spec_strip_prefix`]
/// describes.
pub fn strip_prefix(p: &str, pre: &str) -> (r: Option<String>)
    ensures
        match r {
            Some(rest) => spec_strip_prefix(p@, pre@) == Some(rest@),
            None => spec_strip_prefix(p@, pre@) is None,
        },
{
    let p_len = p.unicode_len();
    let pre_len = pre.unicode_len();
    if !starts_with(p, pre) {
        proof {
            if p@ == pre@ {
                assert(p@.subrange(0, pre@.len() as int) =~= pre@);
            }
        }
        return None;
    }
    if p_len == pre_len {
        proof {
            assert(p@ =~= p@.subrange(0, pre@.len() as int));
        }
        return Some(String::new());
    }
    if p.get_char(pre_len) == '/' {
        let rest = p.substring_char(pre_len + 1, p_len);
        return Some(String::from_str(rest));
    }
    None
}

} // verus!

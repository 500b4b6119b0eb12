//! Paths as plain strings, and the one computation the abstraction needs
//! on them: the parent of a path.
//!
//! A path is a `/`-separated string. The parent of `/a/b` is `/a`, the
//! parent of `/a` is `/`, and `/` itself, the empty string and a bare
//! name without a separator have no parent.

use vstd::prelude::*;

verus! {

/// The position of the last `/` in `s`, if any.
pub open spec fn last_slash(s: Seq<char>) -> Option<int>
    decreases s.len(),
{
    if s.len() == 0 {
        None
    } else if s[s.len() - 1] == '/' {
        Some(s.len() - 1)
    } else {
        last_slash(s.drop_last())
    }
}

/// The parent of path `s`: everything before the last `/`, except that a
/// path whose only `/` is its first character has the root `/` as its
/// parent, and the root itself has none.
pub open spec fn parent_of(s: Seq<char>) -> Option<Seq<char>> {
    match last_slash(s) {
        None => None,
        Some(i) => if i == 0 {
            if s.len() == 1 {
                None
            } else {
                Some(s.subrange(0, 1))
            }
        } else {
            Some(s.subrange(0, i))
        },
    }
}

pub proof fn lemma_last_slash_bounds(s: Seq<char>)
    ensures
        match last_slash(s) {
            Some(i) => 0 <= i < s.len() && s[i] == '/' && (forall|k: int|
                i < k < s.len() ==> s[k] != '/'),
            None => forall|k: int| 0 <= k < s.len() ==> s[k] != '/',
        },
    decreases s.len(),
{
    if s.len() > 0 && s[s.len() - 1] != '/' {
        lemma_last_slash_bounds(s.drop_last());
        assert forall|k: int| 0 <= k < s.len() - 1 implies s.drop_last()[k] == s[k] by {}
    }
}

/// The parent of a path is strictly shorter than the path; the ground of
/// termination for everything that walks a parent chain.
pub proof fn lemma_parent_shorter(s: Seq<char>)
    ensures
        match parent_of(s) {
            Some(p) => p.len() < s.len(),
            None => true,
        },
{
    lemma_last_slash_bounds(s);
}

/// A `/` at position `i` with none after it is the last slash.
proof fn lemma_last_slash_found(s: Seq<char>, i: int)
    requires
        0 <= i < s.len(),
        s[i] == '/',
        forall|k: int| i < k < s.len() ==> s[k] != '/',
    ensures
        last_slash(s) == Some(i),
    decreases s.len(),
{
    if i < s.len() - 1 {
        assert forall|k: int| i < k < s.len() - 1 implies s.drop_last()[k] != '/' by {}
        lemma_last_slash_found(s.drop_last(), i);
    }
}

/// The parent of `path`, or `None` where no parent is resolvable.
pub fn parent(path: &str) -> (r: Option<&str>)
    ensures
        match r {
            Some(p) => parent_of(path@) == Some(p@),
            None => parent_of(path@) is None,
        },
{
    let n = path.unicode_len();
    let mut j: usize = n;
    while j > 0
        invariant
            j <= n,
            n == path@.len(),
            forall|k: int| j <= k < n ==> path@[k] != '/',
        decreases j,
    {
        j = j - 1;
        if path.get_char(j) == '/' {
            proof {
                lemma_last_slash_found(path@, j as int);
            }
            if j == 0 {
                if n == 1 {
                    return None;
                } else {
                    return Some(path.substring_char(0, 1));
                }
            } else {
                return Some(path.substring_char(0, j));
            }
        }
    }
    proof {
        lemma_last_slash_bounds(path@);
        if path@.len() > 0 {
            assert(path@[path@.len() - 1] != '/');
        }
    }
    None
}

/// Whether two strings hold the same characters.
pub fn str_eq(a: &str, b: &str) -> (r: bool)
    ensures
        r == (a@ == b@),
{
    let na = a.unicode_len();
    let nb = b.unicode_len();
    if na != nb {
        return false;
    }
    let mut i: usize = 0;
    while i < na
        invariant
            i <= na,
            na == a@.len(),
            na == b@.len(),
            forall|k: int| 0 <= k < i ==> a@[k] == b@[k],
        decreases na - i,
    {
        if a.get_char(i) != b.get_char(i) {
            return false;
        }
        i = i + 1;
    }
    proof {
        assert(a@ =~= b@);
    }
    true
}

} // verus!

//! A plain-string model of filesystem paths.
//!
//! Paths are carried as ordinary strings; `/` separates components. `join`
//! appends one component, `parent_dir` strips the final component. This is
//! all the path algebra the locators need.

use vstd::prelude::*;

verus! {

/// `dir` with one more component `name` appended.
pub open spec fn spec_join(dir: Seq<char>, name: Seq<char>) -> Seq<char> {
    dir + "/"@ + name
}

/// Index of the last separator in `s`, or `-1` when `s` has none.
pub open spec fn last_slash_at(s: Seq<char>) -> int
    decreases s.len(),
{
    if s.len() == 0 {
        -1
    } else if s[s.len() - 1] == '/' {
        s.len() - 1
    } else {
        last_slash_at(s.drop_last())
    }
}

/// Everything before the last separator of `s`; absent when `s` has no
/// separator. The directory part of a path, in this library's model.
pub open spec fn spec_parent(s: Seq<char>) -> Option<Seq<char>> {
    if last_slash_at(s) >= 0 {
        Some(s.take(last_slash_at(s)))
    } else {
        None
    }
}

proof fn lemma_last_slash_suffix_clear(s: Seq<char>, i: int)
    requires
        0 <= i <= s.len(),
        forall|j: int| i <= j < s.len() ==> s[j] != '/',
    ensures
        last_slash_at(s) == last_slash_at(s.take(i)),
    decreases s.len() - i,
{
    if i == s.len() {
        assert(s.take(i) =~= s);
    } else {
        assert(s[s.len() - 1] != '/');
        assert(s.drop_last() =~= s.take(s.len() - 1));
        lemma_last_slash_suffix_clear(s.take(s.len() - 1), i);
        assert(s.take(s.len() - 1).take(i) =~= s.take(i));
    }
}

proof fn lemma_last_slash_found(s: Seq<char>, i: int)
    requires
        0 <= i < s.len(),
        s[i] == '/',
        forall|j: int| i < j < s.len() ==> s[j] != '/',
    ensures
        last_slash_at(s) == i,
{
    lemma_last_slash_suffix_clear(s, i + 1);
    let t = s.take(i + 1);
    assert(t.len() == i + 1);
    assert(t[t.len() - 1] == '/');
}

proof fn lemma_last_slash_none(s: Seq<char>)
    requires
        forall|j: int| 0 <= j < s.len() ==> s[j] != '/',
    ensures
        last_slash_at(s) == -1,
{
    lemma_last_slash_suffix_clear(s, 0);
    assert(s.take(0) =~= Seq::<char>::empty());
}

/// `dir` with the component `name` appended after a separator.
pub fn join(dir: &str, name: &str) -> (r: String)
    ensures
        r@ == spec_join(dir@, name@),
{
    let mut r = dir.to_owned();
    r.append("/");
    r.append(name);
    r
}

/// The directory containing `path`: everything before its last separator.
/// Absent when `path` holds no separator at all.
pub fn parent_dir(path: &str) -> (r: Option<String>)
    ensures
        match r {
            Some(p) => spec_parent(path@) == Some(p@),
            None => spec_parent(path@) is None,
        },
{
    let n: usize = path.unicode_len();
    let mut i: usize = n;
    while i > 0
        invariant
            i <= n,
            n == path@.len(),
            forall|j: int| i <= j < n ==> path@[j] != '/',
        decreases i,
    {
        if path.get_char(i - 1) == '/' {
            let p = path.substring_char(0, i - 1);
            proof {
                lemma_last_slash_found(path@, i - 1);
            }
            return Some(p.to_owned());
        }
        i = i - 1;
    }
    proof {
        lemma_last_slash_none(path@);
    }
    None
}

} // verus!

//! Runtime locator: where a binary able to run the server entry file may
//! live.
//!
//! A fixed, ordered list of well-known install paths is probed first; the
//! first that exists wins. When none exists, the embedding program runs the
//! system's search-path lookup command and hands back its raw output; the
//! output is trimmed of surrounding whitespace and the resulting path is
//! probed once — it is the answer exactly when it exists. Every invocation
//! re-probes; nothing is cached.

use vstd::prelude::*;

use crate::search::{first_hit, seq_views, ProbeSearch};

verus! {

/// The well-known install paths, in probe order.
pub open spec fn runtime_candidates_spec() -> Seq<Seq<char>> {
    seq!["/usr/local/bin/node"@, "/opt/homebrew/bin/node"@, "/usr/bin/node"@]
}

/// Whitespace as the lookup command's output may carry it around a path.
pub open spec fn is_ws(c: char) -> bool {
    c == ' ' || c == '\n' || c == '\t' || c == '\r'
}

/// `s` without its leading whitespace.
pub open spec fn spec_trim_front(s: Seq<char>) -> Seq<char>
    decreases s.len(),
{
    if s.len() > 0 && is_ws(s[0]) {
        spec_trim_front(s.drop_first())
    } else {
        s
    }
}

/// `s` without its trailing whitespace.
pub open spec fn spec_trim_back(s: Seq<char>) -> Seq<char>
    decreases s.len(),
{
    if s.len() > 0 && is_ws(s.last()) {
        spec_trim_back(s.drop_last())
    } else {
        s
    }
}

/// `s` without surrounding whitespace.
pub open spec fn spec_trim(s: Seq<char>) -> Seq<char> {
    spec_trim_back(spec_trim_front(s))
}

/// What the runtime locator yields on a filesystem `fs` (the set of existing
/// paths), given the lookup command's raw output when that command was run
/// and succeeded: the first well-known path that exists, else the trimmed
/// lookup result when that exists, else nothing.
pub open spec fn locate_runtime_spec(fs: Set<Seq<char>>, lookup_output: Option<Seq<char>>) -> Option<
    Seq<char>,
> {
    match first_hit(runtime_candidates_spec(), fs) {
        Some(i) => Some(runtime_candidates_spec()[i]),
        None => match lookup_output {
            Some(out) => if fs.contains(spec_trim(out)) {
                Some(spec_trim(out))
            } else {
                None
            },
            None => None,
        },
    }
}

proof fn lemma_trim_front_skip(s: Seq<char>, a: int)
    requires
        0 <= a <= s.len(),
        forall|j: int| 0 <= j < a ==> is_ws(s[j]),
    ensures
        spec_trim_front(s) == spec_trim_front(s.skip(a)),
    decreases a,
{
    if a == 0 {
        assert(s.skip(0) =~= s);
    } else {
        assert(is_ws(s[0]));
        assert(s.drop_first() =~= s.skip(1));
        lemma_trim_front_skip(s.skip(1), a - 1);
        assert(s.skip(1).skip(a - 1) =~= s.skip(a));
    }
}

proof fn lemma_trim_back_take(s: Seq<char>, b: int)
    requires
        0 <= b <= s.len(),
        forall|j: int| b <= j < s.len() ==> is_ws(s[j]),
    ensures
        spec_trim_back(s) == spec_trim_back(s.take(b)),
    decreases s.len() - b,
{
    if b == s.len() {
        assert(s.take(b) =~= s);
    } else {
        assert(is_ws(s.last()));
        assert(s.drop_last() =~= s.take(s.len() - 1));
        lemma_trim_back_take(s.take(s.len() - 1), b);
        assert(s.take(s.len() - 1).take(b) =~= s.take(b));
    }
}

/// Whether `c` counts as whitespace for trimming lookup output.
pub fn is_ws_char(c: char) -> (r: bool)
    ensures
        r == is_ws(c),
{
    c == ' ' || c == '\n' || c == '\t' || c == '\r'
}

/// `s` without surrounding whitespace, as the lookup command's output must
/// be cleaned before its path is probed.
pub fn trim_whitespace(s: &str) -> (r: String)
    ensures
        r@ == spec_trim(s@),
{
    let n: usize = s.unicode_len();
    let mut a: usize = 0;
    while a < n && is_ws_char(s.get_char(a))
        invariant
            a <= n,
            n == s@.len(),
            forall|j: int| 0 <= j < a ==> is_ws(s@[j]),
        decreases n - a,
    {
        a = a + 1;
    }
    let mut b: usize = n;
    while b > a && is_ws_char(s.get_char(b - 1))
        invariant
            a <= b <= n,
            n == s@.len(),
            forall|j: int| b <= j < n ==> is_ws(s@[j]),
        decreases b,
    {
        b = b - 1;
    }
    let r = s.substring_char(a, b);
    proof {
        let t = s@.skip(a as int);
        lemma_trim_front_skip(s@, a as int);
        if a < n {
            assert(!is_ws(t[0]));
        }
        assert(spec_trim_front(s@) == t);
        lemma_trim_back_take(t, b - a);
        if b > a {
            assert(t.take(b - a).last() == s@[b - 1]);
            assert(!is_ws(t.take(b - a).last()));
        }
        assert(spec_trim_back(t) == t.take(b - a));
        assert(t.take(b - a) =~= s@.subrange(a as int, b as int));
    }
    r.to_owned()
}

/// The well-known install paths, in probe order.
pub fn runtime_candidates() -> (r: Vec<String>)
    ensures
        seq_views(r@) == runtime_candidates_spec(),
{
    let mut r: Vec<String> = Vec::new();
    r.push("/usr/local/bin/node".to_owned());
    r.push("/opt/homebrew/bin/node".to_owned());
    r.push("/usr/bin/node".to_owned());
    proof {
        assert(seq_views(r@) =~= runtime_candidates_spec());
    }
    r
}

/// Starts the search over the well-known runtime paths.
pub fn runtime_search() -> (r: ProbeSearch)
    ensures
        r.cands() == runtime_candidates_spec(),
        r.pos() == 0,
        r.wf(),
        r.outcome_of() is Pending,
        forall|fs: Set<Seq<char>>| #[trigger] r.consistent_with(fs),
{
    let r = ProbeSearch::new(runtime_candidates());
    proof {
        assert(runtime_candidates_spec().len() == 3);
    }
    r
}

/// Decides the lookup fallback: the trimmed lookup path is the answer
/// exactly when it exists on disk.
pub fn lookup_result(resolved: String, exists: bool) -> (r: Option<String>)
    ensures
        exists ==> r == Some(resolved),
        !exists ==> r is None,
{
    if exists {
        Some(resolved)
    } else {
        None
    }
}

/// On every filesystem and for every lookup outcome: when a well-known path
/// exists, the runtime locator yields the first existing one in probe order
/// — never a later one, however many later candidates also exist, and
/// whatever the lookup would say.
pub proof fn lemma_runtime_first_wins(fs: Set<Seq<char>>, lookup_output: Option<Seq<char>>, k: int)
    requires
        0 <= k < runtime_candidates_spec().len(),
        fs.contains(runtime_candidates_spec()[k]),
        forall|j: int| 0 <= j < k ==> !fs.contains(#[trigger] runtime_candidates_spec()[j]),
    ensures
        locate_runtime_spec(fs, lookup_output) == Some(runtime_candidates_spec()[k]),
{
    crate::search::lemma_first_hit_at(runtime_candidates_spec(), fs, k);
}

/// On every filesystem where no well-known path exists but the lookup
/// succeeded and its trimmed result exists, the runtime locator yields the
/// trimmed lookup result.
pub proof fn lemma_runtime_lookup_fallback(fs: Set<Seq<char>>, out: Seq<char>)
    requires
        forall|j: int|
            0 <= j < runtime_candidates_spec().len() ==> !fs.contains(
                #[trigger] runtime_candidates_spec()[j],
            ),
        fs.contains(spec_trim(out)),
    ensures
        locate_runtime_spec(fs, Some(out)) == Some(spec_trim(out)),
{
    crate::search::lemma_first_hit_none(runtime_candidates_spec(), fs);
}

} // verus!

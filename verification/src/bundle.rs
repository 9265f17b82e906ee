//! Bundle locator: where the packaged server directory may live.
//!
//! Two candidates are tried, in strict order: the host shell's resource
//! directory with a `server` child, then — for installations whose
//! executable sits beside the resources, as under `Contents/MacOS` next to
//! `Contents/Resources` — the grandparent of the running executable with
//! `Resources/server` appended. The embedding program hands in the resource
//! directory and the executable path as it knows them; this module derives
//! the ordered candidate list, and an ordered probe over it picks the first
//! candidate that exists on disk.

use vstd::prelude::*;

use crate::paths::{join, parent_dir, spec_join, spec_parent};
use crate::search::{first_hit, seq_views, ProbeSearch};

verus! {

/// Name of the directory holding the packaged server.
pub open spec fn server_dir_name() -> Seq<char> {
    "server"@
}

/// Name of the resources directory that sits beside the executable's
/// directory in the fallback layout.
pub open spec fn resources_dir_name() -> Seq<char> {
    "Resources"@
}

/// The view of an optional string.
pub open spec fn opt_view(o: Option<String>) -> Option<Seq<char>> {
    match o {
        Some(s) => Some(s@),
        None => None,
    }
}

/// The primary candidate: `server` inside the shell's resource directory.
pub open spec fn resource_candidate(resource_dir: Seq<char>) -> Seq<char> {
    spec_join(resource_dir, server_dir_name())
}

/// The fallback candidate derived from the executable's path: two levels up,
/// then `Resources/server`. Absent when the path is too shallow for that.
pub open spec fn exe_candidate(exe_path: Seq<char>) -> Option<Seq<char>> {
    match spec_parent(exe_path) {
        Some(dir) => match spec_parent(dir) {
            Some(grandparent) => Some(
                spec_join(spec_join(grandparent, resources_dir_name()), server_dir_name()),
            ),
            None => None,
        },
        None => None,
    }
}

/// The ordered candidate list of the bundle search: the resource-directory
/// candidate first, the executable-relative candidate second, each present
/// only when derivable from the given inputs.
pub open spec fn bundle_candidates_spec(
    resource_dir: Option<Seq<char>>,
    exe_path: Option<Seq<char>>,
) -> Seq<Seq<char>> {
    (match resource_dir {
        Some(rd) => seq![resource_candidate(rd)],
        None => Seq::empty(),
    }) + (match exe_path {
        Some(exe) => match exe_candidate(exe) {
            Some(c) => seq![c],
            None => Seq::empty(),
        },
        None => Seq::empty(),
    })
}

/// What the bundle locator yields on a filesystem `fs` (the set of existing
/// paths): the first candidate that exists, if any.
pub open spec fn locate_bundle_spec(
    resource_dir: Option<Seq<char>>,
    exe_path: Option<Seq<char>>,
    fs: Set<Seq<char>>,
) -> Option<Seq<char>> {
    let cands = bundle_candidates_spec(resource_dir, exe_path);
    match first_hit(cands, fs) {
        Some(i) => Some(cands[i]),
        None => None,
    }
}

/// Computes the ordered candidate list from the resource directory and the
/// executable path, as far as each is known.
pub fn bundle_candidates(resource_dir: &Option<String>, exe_path: &Option<String>) -> (r: Vec<
    String,
>)
    ensures
        seq_views(r@) == bundle_candidates_spec(opt_view(*resource_dir), opt_view(*exe_path)),
{
    let mut r: Vec<String> = Vec::new();
    if let Some(rd) = resource_dir {
        r.push(join(rd.as_str(), "server"));
    }
    if let Some(exe) = exe_path {
        if let Some(dir) = parent_dir(exe.as_str()) {
            if let Some(grandparent) = parent_dir(dir.as_str()) {
                let resources = join(grandparent.as_str(), "Resources");
                r.push(join(resources.as_str(), "server"));
            }
        }
    }
    proof {
        assert(seq_views(r@) =~= bundle_candidates_spec(
            opt_view(*resource_dir),
            opt_view(*exe_path),
        ));
    }
    r
}

/// Starts the bundle search: an ordered probe over the bundle candidates.
pub fn bundle_search(resource_dir: &Option<String>, exe_path: &Option<String>) -> (r: ProbeSearch)
    ensures
        r.cands() == bundle_candidates_spec(opt_view(*resource_dir), opt_view(*exe_path)),
        r.pos() == 0,
        r.wf(),
        forall|fs: Set<Seq<char>>| #[trigger] r.consistent_with(fs),
{
    ProbeSearch::new(bundle_candidates(resource_dir, exe_path))
}

/// On every filesystem where the resource directory's `server` child exists,
/// the bundle locator yields exactly that path; the executable-relative
/// fallback, existing or not, can never override it, because the search
/// ends before that candidate is ever probed.
pub proof fn lemma_resource_dir_wins(
    resource_dir: Seq<char>,
    exe_path: Option<Seq<char>>,
    fs: Set<Seq<char>>,
)
    requires
        fs.contains(resource_candidate(resource_dir)),
    ensures
        locate_bundle_spec(Some(resource_dir), exe_path, fs) == Some(
            resource_candidate(resource_dir),
        ),
{
    let cands = bundle_candidates_spec(Some(resource_dir), exe_path);
    assert(cands[0] == resource_candidate(resource_dir));
}

/// On every filesystem where the resource-directory candidate is absent or
/// underivable but the executable-relative candidate exists, the bundle
/// locator yields the executable-relative candidate.
pub proof fn lemma_exe_fallback_found(
    resource_dir: Option<Seq<char>>,
    exe_path: Seq<char>,
    fs: Set<Seq<char>>,
    c: Seq<char>,
)
    requires
        exe_candidate(exe_path) == Some(c),
        fs.contains(c),
        resource_dir matches Some(rd) ==> !fs.contains(resource_candidate(rd)),
    ensures
        locate_bundle_spec(resource_dir, Some(exe_path), fs) == Some(c),
{
    let cands = bundle_candidates_spec(resource_dir, Some(exe_path));
    match resource_dir {
        Some(rd) => {
            assert(cands =~= seq![resource_candidate(rd), c]);
            assert(cands.drop_first() =~= seq![c]);
        },
        None => {
            assert(cands =~= seq![c]);
        },
    }
}

/// On every filesystem where no derivable candidate exists, the bundle
/// locator yields nothing. (It also touches nothing: candidate derivation
/// and selection are pure functions of their inputs.)
pub proof fn lemma_no_bundle(
    resource_dir: Option<Seq<char>>,
    exe_path: Option<Seq<char>>,
    fs: Set<Seq<char>>,
)
    requires
        resource_dir matches Some(rd) ==> !fs.contains(resource_candidate(rd)),
        exe_path matches Some(exe) ==> (exe_candidate(exe) matches Some(c) ==> !fs.contains(c)),
    ensures
        locate_bundle_spec(resource_dir, exe_path, fs) is None,
{
    let cands = bundle_candidates_spec(resource_dir, exe_path);
    assert forall|j: int| 0 <= j < cands.len() implies !fs.contains(#[trigger] cands[j]) by {
        match resource_dir {
            Some(rd) => {
                assert(cands[0] == resource_candidate(rd));
            },
            None => {},
        }
    }
    crate::search::lemma_first_hit_none(cands, fs);
}

} // verus!

use server_supervisor::bundle::{bundle_candidates, bundle_search};
use server_supervisor::paths::{join, parent_dir};
use server_supervisor::runtime::{lookup_result, runtime_candidates, runtime_search, trim_whitespace};
use server_supervisor::search::ProbeSearch;

/// Drives a probe search against a recorded filesystem: the list of paths
/// that exist. Returns the search's result and the paths it probed, in
/// order.
fn drive(mut search: ProbeSearch, existing: &[&str]) -> (Option<String>, Vec<String>) {
    let mut probed: Vec<String> = Vec::new();
    while let Some(path) = search.pending() {
        let exists = existing.iter().any(|e| *e == path.as_str());
        probed.push(path);
        search.advance(exists);
    }
    assert!(search.is_finished());
    (search.result(), probed)
}

#[test]
fn join_appends_component() {
    assert_eq!(join("/A", "server").as_str(), "/A/server");
    assert_eq!(join("", "server").as_str(), "/server");
}

#[test]
fn parent_strips_last_component() {
    assert_eq!(parent_dir("/A/B/c").as_deref(), Some("/A/B"));
    assert_eq!(parent_dir("/A").as_deref(), Some(""));
    assert_eq!(parent_dir("noslash"), None);
    assert_eq!(parent_dir(""), None);
}

#[test]
fn bundle_candidates_in_order() {
    let rd = Some(String::from("/R"));
    let exe = Some(String::from("/Apps/X.app/Contents/MacOS/x"));
    let cands = bundle_candidates(&rd, &exe);
    let views: Vec<&str> = cands.iter().map(|s| s.as_str()).collect();
    assert_eq!(views, vec!["/R/server", "/Apps/X.app/Contents/Resources/server"]);
}

#[test]
fn bundle_candidates_without_inputs() {
    assert!(bundle_candidates(&None, &None).is_empty());
    // An executable path too shallow to walk up twice yields no fallback.
    let cands = bundle_candidates(&None, &Some(String::from("x")));
    assert!(cands.is_empty());
    let cands = bundle_candidates(&None, &Some(String::from("/x")));
    assert!(cands.is_empty());
}

#[test]
fn resource_dir_wins_and_fallback_never_probed() {
    let rd = Some(String::from("/R"));
    let exe = Some(String::from("/Apps/X.app/Contents/MacOS/x"));
    // Both candidates exist; the resource-directory one must win and the
    // fallback must never even be probed.
    let (found, probed) = drive(
        bundle_search(&rd, &exe),
        &["/R/server", "/Apps/X.app/Contents/Resources/server"],
    );
    assert_eq!(found.as_deref(), Some("/R/server"));
    assert_eq!(probed, vec![String::from("/R/server")]);
}

#[test]
fn exe_fallback_found_when_resource_dir_absent() {
    let rd = Some(String::from("/R"));
    let exe = Some(String::from("/Apps/X.app/Contents/MacOS/x"));
    let (found, probed) = drive(
        bundle_search(&rd, &exe),
        &["/Apps/X.app/Contents/Resources/server"],
    );
    assert_eq!(found.as_deref(), Some("/Apps/X.app/Contents/Resources/server"));
    assert_eq!(probed.len(), 2);
}

#[test]
fn no_bundle_when_neither_exists() {
    let rd = Some(String::from("/R"));
    let exe = Some(String::from("/Apps/X.app/Contents/MacOS/x"));
    let (found, probed) = drive(bundle_search(&rd, &exe), &[]);
    assert_eq!(found, None);
    assert_eq!(probed.len(), 2);
}

#[test]
fn runtime_candidates_fixed_order() {
    let cands = runtime_candidates();
    let views: Vec<&str> = cands.iter().map(|s| s.as_str()).collect();
    assert_eq!(views, vec!["/usr/local/bin/node", "/opt/homebrew/bin/node", "/usr/bin/node"]);
}

#[test]
fn runtime_first_existing_wins() {
    // All three exist: the first in probe order is returned.
    let (found, probed) = drive(
        runtime_search(),
        &["/usr/local/bin/node", "/opt/homebrew/bin/node", "/usr/bin/node"],
    );
    assert_eq!(found.as_deref(), Some("/usr/local/bin/node"));
    assert_eq!(probed, vec![String::from("/usr/local/bin/node")]);
}

#[test]
fn runtime_never_a_later_one() {
    // The second and third exist: the second is returned, never the third.
    let (found, _) = drive(runtime_search(), &["/opt/homebrew/bin/node", "/usr/bin/node"]);
    assert_eq!(found.as_deref(), Some("/opt/homebrew/bin/node"));
    // Only the third exists.
    let (found, probed) = drive(runtime_search(), &["/usr/bin/node"]);
    assert_eq!(found.as_deref(), Some("/usr/bin/node"));
    assert_eq!(probed.len(), 3);
}

#[test]
fn runtime_lookup_fallback_when_no_well_known_path() {
    // No well-known path exists.
    let (found, _) = drive(runtime_search(), &[]);
    assert_eq!(found, None);
    // The search-path lookup succeeds; its output carries a newline.
    let resolved = trim_whitespace("/home/u/.local/bin/node\n");
    assert_eq!(resolved.as_str(), "/home/u/.local/bin/node");
    // The resolved file exists: it is the answer.
    assert_eq!(
        lookup_result(resolved.clone(), true).as_deref(),
        Some("/home/u/.local/bin/node"),
    );
    // The resolved file does not exist: no runtime.
    assert_eq!(lookup_result(resolved, false), None);
}

#[test]
fn trim_whitespace_edges() {
    assert_eq!(trim_whitespace("").as_str(), "");
    assert_eq!(trim_whitespace(" \t\r\n").as_str(), "");
    assert_eq!(trim_whitespace("/usr/bin/node").as_str(), "/usr/bin/node");
    assert_eq!(trim_whitespace("  /a b  \n").as_str(), "/a b");
}

#[test]
fn empty_candidate_list_is_exhausted_at_once() {
    let search = ProbeSearch::new(Vec::new());
    assert!(search.is_finished());
    assert_eq!(search.result(), None);
}

#[test]
fn finished_search_ignores_further_answers() {
    let mut search = ProbeSearch::new(vec![String::from("/a")]);
    search.advance(true);
    assert!(search.is_finished());
    assert_eq!(search.pending(), None);
    // Further answers are no-ops on a finished search.
    search.advance(false);
    assert_eq!(search.result().as_deref(), Some("/a"));
}

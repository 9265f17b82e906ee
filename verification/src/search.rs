//! An ordered probe over a fixed list of candidate paths.
//!
//! Both locators share this machine. It holds the candidates and hands them
//! out one at a time, in order; the embedding program probes the filesystem
//! for each and reports back whether the path exists. The machine stops at
//! the first hit. `first_hit` is the mathematical statement of that rule,
//! and `consistent_with` ties a machine state to a filesystem (a set of
//! existing paths): a run fed truthful answers for a filesystem stays
//! consistent with it, and a finished consistent run reports exactly
//! `first_hit`.

use vstd::prelude::*;

verus! {

/// The views of a list of strings.
pub open spec fn seq_views(v: Seq<String>) -> Seq<Seq<char>> {
    v.map_values(|s: String| s@)
}

/// Where an ordered probe stands: a candidate still awaits probing, or the
/// candidate at the given position was reported existing, or every candidate
/// was reported absent.
#[derive(Clone, Copy)]
pub enum SearchOutcome {
    Pending,
    Found(usize),
    Exhausted,
}

/// The first candidate of `cands` that `fs` contains, by index; absent when
/// `fs` contains none of them.
pub open spec fn first_hit(cands: Seq<Seq<char>>, fs: Set<Seq<char>>) -> Option<int>
    decreases cands.len(),
{
    if cands.len() == 0 {
        None
    } else if fs.contains(cands[0]) {
        Some(0)
    } else {
        match first_hit(cands.drop_first(), fs) {
            Some(i) => Some(i + 1),
            None => None,
        }
    }
}

/// `first_hit` returns the index of the earliest candidate in `fs`, and
/// returns nothing exactly when no candidate is in `fs`.
pub proof fn lemma_first_hit_props(cands: Seq<Seq<char>>, fs: Set<Seq<char>>)
    ensures
        match first_hit(cands, fs) {
            Some(k) => 0 <= k < cands.len() && fs.contains(cands[k]) && (forall|j: int|
                0 <= j < k ==> !fs.contains(#[trigger] cands[j])),
            None => forall|j: int| 0 <= j < cands.len() ==> !fs.contains(#[trigger] cands[j]),
        },
    decreases cands.len(),
{
    if cands.len() == 0 {
    } else if fs.contains(cands[0]) {
    } else {
        let rest = cands.drop_first();
        lemma_first_hit_props(rest, fs);
        match first_hit(rest, fs) {
            Some(k) => {
                assert(rest[k] == cands[k + 1]);
                assert forall|j: int| 0 <= j < k + 1 implies !fs.contains(#[trigger] cands[j]) by {
                    if j > 0 {
                        assert(cands[j] == rest[j - 1]);
                    }
                }
            },
            None => {
                assert forall|j: int| 0 <= j < cands.len() implies !fs.contains(
                    #[trigger] cands[j],
                ) by {
                    if j > 0 {
                        assert(cands[j] == rest[j - 1]);
                    }
                }
            },
        }
    }
}

/// A candidate that exists and is preceded only by absent candidates is the
/// one `first_hit` names.
pub proof fn lemma_first_hit_at(cands: Seq<Seq<char>>, fs: Set<Seq<char>>, k: int)
    requires
        0 <= k < cands.len(),
        fs.contains(cands[k]),
        forall|j: int| 0 <= j < k ==> !fs.contains(#[trigger] cands[j]),
    ensures
        first_hit(cands, fs) == Some(k),
{
    lemma_first_hit_props(cands, fs);
    match first_hit(cands, fs) {
        Some(h) => {
            if h < k {
                assert(!fs.contains(cands[h]));
            }
            if k < h {
                assert(!fs.contains(cands[k]));
            }
        },
        None => {
            assert(!fs.contains(cands[k]));
        },
    }
}

/// When `fs` contains no candidate at all, `first_hit` is absent.
pub proof fn lemma_first_hit_none(cands: Seq<Seq<char>>, fs: Set<Seq<char>>)
    requires
        forall|j: int| 0 <= j < cands.len() ==> !fs.contains(#[trigger] cands[j]),
    ensures
        first_hit(cands, fs) is None,
{
    lemma_first_hit_props(cands, fs);
    match first_hit(cands, fs) {
        Some(h) => {
            assert(!fs.contains(cands[h]));
        },
        None => {},
    }
}

/// An ordered probe in progress. Construct it with the candidate list; then
/// repeatedly take `pending` and answer it through `advance` until
/// `is_finished`; `result` then holds the first candidate reported existing.
pub struct ProbeSearch {
    candidates: Vec<String>,
    idx: usize,
    outcome: SearchOutcome,
}

impl ProbeSearch {
    /// The candidate list, by view.
    pub closed spec fn cands(self) -> Seq<Seq<char>> {
        seq_views(self.candidates@)
    }

    /// How many candidates have been answered absent so far.
    pub closed spec fn pos(self) -> usize {
        self.idx
    }

    /// Where the probe stands.
    pub closed spec fn outcome_of(self) -> SearchOutcome {
        self.outcome
    }

    /// The shape every reachable state has.
    pub open spec fn wf(self) -> bool {
        match self.outcome_of() {
            SearchOutcome::Pending => self.pos() < self.cands().len(),
            SearchOutcome::Found(i) => i == self.pos() && self.pos() < self.cands().len(),
            SearchOutcome::Exhausted => self.pos() == self.cands().len(),
        }
    }

    /// The state agrees with a filesystem `fs` (the set of existing paths):
    /// every candidate already passed over is absent from `fs`, and a found
    /// candidate is present in it.
    pub open spec fn consistent_with(self, fs: Set<Seq<char>>) -> bool {
        &&& (forall|j: int| 0 <= j < self.pos() ==> !fs.contains(#[trigger] self.cands()[j]))
        &&& (self.outcome_of() matches SearchOutcome::Found(i) ==> i == self.pos()
            && fs.contains(self.cands()[i as int]))
    }

    /// Starts an ordered probe over `candidates`.
    pub fn new(candidates: Vec<String>) -> (r: ProbeSearch)
        ensures
            r.cands() == seq_views(candidates@),
            r.pos() == 0,
            candidates@.len() == 0 ==> r.outcome_of() is Exhausted,
            candidates@.len() > 0 ==> r.outcome_of() is Pending,
            r.wf(),
            forall|fs: Set<Seq<char>>| #[trigger] r.consistent_with(fs),
    {
        let outcome = if candidates.len() == 0 {
            SearchOutcome::Exhausted
        } else {
            SearchOutcome::Pending
        };
        ProbeSearch { candidates, idx: 0, outcome }
    }

    /// The candidate the embedding program must probe next; absent once the
    /// search is over.
    pub fn pending(&self) -> (r: Option<String>)
        ensures
            self.wf() ==> match r {
                Some(p) => self.outcome_of() is Pending && p@ == self.cands()[self.pos() as int],
                None => !(self.outcome_of() is Pending),
            },
    {
        match self.outcome {
            SearchOutcome::Pending => {
                if self.idx < self.candidates.len() {
                    Some(self.candidates[self.idx].clone())
                } else {
                    None
                }
            },
            _ => None,
        }
    }

    /// Reports whether the candidate handed out by `pending` exists. A probe
    /// answered existing ends the search at that candidate; an absent one
    /// moves it to the next candidate, or ends it empty-handed. Without an
    /// outstanding probe this is a no-op.
    pub fn advance(&mut self, exists: bool)
        ensures
            final(self).cands() == old(self).cands(),
            !(old(self).outcome_of() is Pending) ==> *final(self) == *old(self),
            old(self).wf() ==> final(self).wf(),
            old(self).wf() && old(self).outcome_of() is Pending ==> {
                &&& (exists ==> final(self).outcome_of() == SearchOutcome::Found(old(self).pos())
                    && final(self).pos() == old(self).pos())
                &&& (!exists ==> final(self).pos() == old(self).pos() + 1 && (final(self).pos()
                    < final(self).cands().len() ==> final(self).outcome_of() is Pending) && (
                final(self).pos() == final(self).cands().len()
                    ==> final(self).outcome_of() is Exhausted))
            },
            forall|fs: Set<Seq<char>>|
                (old(self).wf() && old(self).outcome_of() is Pending && old(self).consistent_with(
                    fs,
                ) && exists == fs.contains(old(self).cands()[old(self).pos() as int]))
                    ==> #[trigger] final(self).consistent_with(fs),
    {
        match self.outcome {
            SearchOutcome::Pending => {
                if self.idx < self.candidates.len() {
                    if exists {
                        self.outcome = SearchOutcome::Found(self.idx);
                    } else {
                        self.idx = self.idx + 1;
                        if self.idx == self.candidates.len() {
                            self.outcome = SearchOutcome::Exhausted;
                        }
                    }
                }
            },
            _ => {},
        }
    }

    /// Whether the search is over, either way.
    pub fn is_finished(&self) -> (r: bool)
        ensures
            r == !(self.outcome_of() is Pending),
    {
        match self.outcome {
            SearchOutcome::Pending => false,
            _ => true,
        }
    }

    /// The candidate the search ended at, if any.
    pub fn result(&self) -> (r: Option<String>)
        ensures
            self.wf() ==> match self.outcome_of() {
                SearchOutcome::Found(i) => r matches Some(p) && p@ == self.cands()[i as int],
                _ => r is None,
            },
    {
        match self.outcome {
            SearchOutcome::Found(i) => {
                if i < self.candidates.len() {
                    Some(self.candidates[i].clone())
                } else {
                    None
                }
            },
            _ => None,
        }
    }
}

/// A finished search that stayed consistent with a filesystem reports
/// exactly the first candidate that filesystem contains: the one `first_hit`
/// names, and nothing when there is none.
pub proof fn lemma_search_result(s: ProbeSearch, fs: Set<Seq<char>>)
    requires
        s.wf(),
        s.consistent_with(fs),
    ensures
        s.outcome_of() matches SearchOutcome::Found(i) ==> first_hit(s.cands(), fs) == Some(
            i as int,
        ),
        s.outcome_of() is Exhausted ==> first_hit(s.cands(), fs) is None,
{
    match s.outcome_of() {
        SearchOutcome::Found(i) => {
            lemma_first_hit_at(s.cands(), fs, i as int);
        },
        SearchOutcome::Exhausted => {
            lemma_first_hit_none(s.cands(), fs);
        },
        SearchOutcome::Pending => {},
    }
}

} // verus!

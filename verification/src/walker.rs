//! Ancestor walk: climbing a process's ancestry looking for the target
//! application, bounded to a fixed hop count and safe against cycles in the
//! parent relation.  The walk is event-driven: each step consumes the
//! metadata of the process under the cursor and either finishes or asks for
//! the metadata of the parent.

use vstd::prelude::*;
use crate::introspect::ProcessMeta;

verus! {

/// Hops a walk may take by default: one probe per hop, which bounds the
/// cost on corrupted process trees (typical shell nesting is far shallower).
pub const MAX_ANCESTOR_HOPS: u32 = 20;

/// The walk cursor: the process under inspection, every process already
/// inspected, and how many probes are still allowed (counting the one
/// outstanding for `current`).
pub struct WalkState {
    pub current: u32,
    pub visited: Vec<u32>,
    pub hops_left: u32,
}

/// What one step of the walk decides: probe the parent next, the match, or
/// that the ancestry holds no match.
#[derive(Clone, Copy, Debug, PartialEq, Eq, Structural)]
pub enum WalkOutcome {
    Probe(u32),
    Found(u32),
    NotFound,
}

/// The walk cursor at the specification level.
pub ghost struct WalkModel {
    pub current: u32,
    pub visited: Seq<u32>,
    pub hops_left: u32,
}

pub open spec fn model_of(s: &WalkState) -> WalkModel {
    WalkModel { current: s.current, visited: s.visited@, hops_left: s.hops_left }
}

/// The walk's transition function.  A matching process is the result; a
/// missing parent, an exhausted hop budget, or a parent already visited
/// (a cycle in the tree) each end the walk without a match; otherwise the
/// cursor moves to the parent, which is probed next.
pub open spec fn spec_walk_step(m: WalkModel, meta: ProcessMeta) -> (WalkModel, WalkOutcome) {
    if meta.matches_signature {
        (m, WalkOutcome::Found(m.current))
    } else {
        match meta.parent {
            None => (m, WalkOutcome::NotFound),
            Some(p) => if m.hops_left <= 1 || m.visited.contains(p) {
                (m, WalkOutcome::NotFound)
            } else {
                (
                    WalkModel {
                        current: p,
                        visited: m.visited.push(p),
                        hops_left: (m.hops_left - 1) as u32,
                    },
                    WalkOutcome::Probe(p),
                )
            },
        }
    }
}

/// Starts a walk at `start`, which is probed first.
pub fn walk_start(start: u32, max_hops: u32) -> (s: WalkState)
    requires
        max_hops >= 1,
    ensures
        model_of(&s) == (WalkModel { current: start, visited: seq![start], hops_left: max_hops }),
{
    let mut visited: Vec<u32> = Vec::new();
    visited.push(start);
    proof {
        assert(visited@ =~= seq![start]);
    }
    WalkState { current: start, visited, hops_left: max_hops }
}

fn vec_contains_u32(v: &Vec<u32>, x: u32) -> (r: bool)
    ensures
        r == v@.contains(x),
{
    let mut i: usize = 0;
    while i < v.len()
        invariant
            i <= v@.len(),
            forall|k: int| 0 <= k < i ==> v@[k] != x,
        decreases v.len() - i,
    {
        if v[i] == x {
            return true;
        }
        i = i + 1;
    }
    false
}

impl WalkState {
    /// Feeds the metadata of `current` into the walk and moves it one step.
    pub fn step(&mut self, meta: ProcessMeta) -> (r: WalkOutcome)
        requires
            old(self).hops_left >= 1,
        ensures
            (model_of(final(self)), r) == spec_walk_step(model_of(old(self)), meta),
    {
        if meta.matches_signature {
            return WalkOutcome::Found(self.current);
        }
        match meta.parent {
            None => WalkOutcome::NotFound,
            Some(p) => {
                if self.hops_left <= 1 || vec_contains_u32(&self.visited, p) {
                    WalkOutcome::NotFound
                } else {
                    self.hops_left = self.hops_left - 1;
                    self.visited.push(p);
                    self.current = p;
                    WalkOutcome::Probe(p)
                }
            },
        }
    }
}

/// Where a walk from cursor `m` ends after consuming `events`, one per
/// probe: the final outcome, or nothing if the walk is still asking when
/// the events run out.
pub open spec fn walk_run(m: WalkModel, events: Seq<ProcessMeta>) -> Option<WalkOutcome>
    decreases events.len(),
{
    if events.len() == 0 {
        None
    } else {
        let sr = spec_walk_step(m, events[0]);
        match sr.1 {
            WalkOutcome::Probe(_) => walk_run(sr.0, events.skip(1)),
            _ => Some(sr.1),
        }
    }
}

/// If no inspected process matches the target signature, a walk never
/// produces a match, whatever its ancestry looks like.
pub proof fn lemma_walk_no_match_never_found(m: WalkModel, events: Seq<ProcessMeta>)
    requires
        forall|i: int| 0 <= i < events.len() ==> !(#[trigger] events[i]).matches_signature,
    ensures
        forall|p: u32| walk_run(m, events) != Some(WalkOutcome::Found(p)),
    decreases events.len(),
{
    if events.len() > 0 {
        let sr = spec_walk_step(m, events[0]);
        if sr.1 is Probe {
            lemma_walk_no_match_never_found(sr.0, events.skip(1));
        }
    }
}

/// A walk finishes within its hop budget: given as many probe answers as
/// the budget allows, it has reached a final outcome — even on a process
/// tree whose parent relation has a cycle.
pub proof fn lemma_walk_bounded(m: WalkModel, events: Seq<ProcessMeta>)
    requires
        events.len() >= m.hops_left,
        events.len() >= 1,
    ensures
        walk_run(m, events) is Some,
    decreases events.len(),
{
    let sr = spec_walk_step(m, events[0]);
    if sr.1 is Probe {
        lemma_walk_bounded(sr.0, events.skip(1));
    }
}

/// A parent that was already visited — a cycle in the process tree — ends
/// the walk without a match instead of looping.
pub proof fn lemma_walk_cycle_not_found(m: WalkModel, meta: ProcessMeta, p: u32)
    requires
        !meta.matches_signature,
        meta.parent == Some(p),
        m.visited.contains(p),
    ensures
        spec_walk_step(m, meta).1 == WalkOutcome::NotFound,
{
}

/// A match is always the process whose metadata matched: a step produces
/// `Found(p)` exactly for the current process on a matching probe.
pub proof fn lemma_walk_found_is_match(m: WalkModel, meta: ProcessMeta, p: u32)
    ensures
        spec_walk_step(m, meta).1 == WalkOutcome::Found(p) <==> (meta.matches_signature && p
            == m.current),
{
}

} // verus!

//! Endpoint discovery: an event-driven machine that runs the ordered
//! strategies — explicit environment hint, multiplexer-client ancestry
//! walk, global process scan — validating every candidate against the live
//! process table and the socket file before accepting it.  The embedding
//! program performs each emitted action (a process-metadata read, a
//! multiplexer query, a scan, a file-existence check) and feeds the raw
//! result back in as the next event.

use vstd::prelude::*;
use crate::cache::{endpoint_wf, KittyRemoteInfo};
use crate::introspect::{process_meta, spec_meta_matches, spec_meta_parent, ProcessMeta};
use crate::resolver::{parse_session_token, resolve_client_pid, spec_resolve_client,
    spec_session_token};
use crate::text::{lemma_deep_index, parse_u32, spec_fields, spec_parse_u32, spec_tokens, tokens,
    fields};
use crate::walker::{model_of, spec_walk_step, walk_start, WalkModel, WalkOutcome, WalkState,
    MAX_ANCESTOR_HOPS};

verus! {

/// What the machine asks the embedding program to do next.
pub enum DiscoveryAction {
    /// Read `/proc/<pid>/cmdline` and `/proc/<pid>/stat`.
    ReadProc(u32),
    /// Run the multiplexer's `list-clients` query.
    ListClients,
    /// Enumerate processes whose command line matches the target pattern.
    ScanProcesses,
    /// Enumerate the live children of the process.
    ListChildren(u32),
    /// Test whether the socket file derived from the process exists.
    CheckSocket(u32),
    /// Discovery is over, with the validated endpoint if one was found.
    Finished(Option<KittyRemoteInfo>),
}

/// The raw result of the action the machine asked for last.
pub enum DiscoveryEvent {
    /// The two metadata files, each absent if unreadable.
    ProcFiles { cmdline: Option<Vec<u8>>, stat: Option<Vec<u8>> },
    /// The `list-clients` output, absent if the query failed.
    ClientList(Option<Vec<u8>>),
    /// The process-scan output, absent if the scan failed.
    ScanList(Option<Vec<u8>>),
    /// The child-listing output, absent if the query failed.
    ChildList(Option<Vec<u8>>),
    /// Whether the socket file exists.
    SocketCheck(bool),
}

/// Where the machine stands between events.
pub enum DiscoveryPhase {
    /// Awaiting metadata for the environment-hinted process.
    HintProbe { pid: u32 },
    /// Awaiting the socket check for the environment-hinted process.
    HintSocket { pid: u32 },
    /// Awaiting the multiplexer's client listing.
    Clients,
    /// Awaiting metadata for the process under the ancestry-walk cursor.
    Walk { walk: WalkState },
    /// Awaiting the socket check for the walk's match.
    WalkSocket { pid: u32 },
    /// Awaiting the process-scan output.
    Scan,
    /// Awaiting metadata for scan candidate `idx`.
    ScanProbe { pids: Vec<u32>, idx: usize },
    /// Awaiting the child listing for scan candidate `idx`.
    ScanChildren { pids: Vec<u32>, idx: usize },
    /// Awaiting the socket check for scan candidate `idx`.
    ScanSocket { pids: Vec<u32>, idx: usize },
    /// Discovery is over.
    Done { result: Option<u32> },
}

/// The discovery machine: the clock reading and session token it was
/// started with, and its phase.
pub struct Discovery {
    pub now: u64,
    pub token: Option<Vec<u8>>,
    pub phase: DiscoveryPhase,
}

/// The bytes a payload carries, if any.
pub open spec fn bytes_of(o: &Option<Vec<u8>>) -> Option<Seq<u8>> {
    match o {
        Some(b) => Some(b@),
        None => None,
    }
}

/// A scan-output line contributes a candidate when it is a single decimal
/// token.
pub open spec fn line_single_pid(line: Seq<u8>) -> Option<u32> {
    let toks = spec_tokens(line);
    if toks.len() == 1 {
        spec_parse_u32(toks[0])
    } else {
        None
    }
}

pub open spec fn scan_pids_from(lines: Seq<Seq<u8>>, i: int) -> Seq<u32>
    decreases lines.len() - i,
{
    if i < 0 || i >= lines.len() {
        Seq::empty()
    } else {
        match line_single_pid(lines[i]) {
            Some(p) => seq![p] + scan_pids_from(lines, i + 1),
            None => scan_pids_from(lines, i + 1),
        }
    }
}

/// The candidate pids in a raw scan output, in listing order.
pub open spec fn spec_scan_pids(b: Seq<u8>) -> Seq<u32> {
    scan_pids_from(spec_fields(b, 10u8), 0)
}

/// Extracts the candidate pids from a raw scan output.
pub fn parse_scan_pids(b: &[u8]) -> (r: Vec<u32>)
    ensures
        r@ == spec_scan_pids(b@),
{
    let lines = fields(b, 10u8);
    let ghost glines = spec_fields(b@, 10u8);
    let mut r: Vec<u32> = Vec::new();
    let mut i: usize = 0;
    while i < lines.len()
        invariant
            i <= lines.len(),
            glines == spec_fields(b@, 10u8),
            lines.deep_view() == glines,
            r@ + scan_pids_from(glines, i as int) == scan_pids_from(glines, 0),
        decreases lines.len() - i,
    {
        proof {
            lemma_deep_index(&lines, i as int);
        }
        let toks = tokens(lines[i].as_slice());
        if toks.len() == 1 {
            proof {
                lemma_deep_index(&toks, 0);
            }
            match parse_u32(toks[0].as_slice()) {
                Some(p) => {
                    let ghost old_r = r@;
                    r.push(p);
                    proof {
                        assert(r@ + scan_pids_from(glines, i + 1) =~= old_r + (seq![p]
                            + scan_pids_from(glines, i + 1)));
                    }
                },
                None => {},
            }
        }
        i = i + 1;
    }
    proof {
        assert(r@ + scan_pids_from(glines, i as int) =~= r@);
    }
    r
}

/// A machine state is well formed when its phase's bookkeeping is in
/// order: a client lookup only runs with a session token in hand, a walk
/// always has a probe left, and a scan index points at a candidate.
pub open spec fn disc_wf(d: &Discovery) -> bool {
    match d.phase {
        DiscoveryPhase::Clients => d.token is Some,
        DiscoveryPhase::Walk { walk } => walk.hops_left >= 1,
        DiscoveryPhase::ScanProbe { pids, idx } => idx < pids@.len(),
        DiscoveryPhase::ScanChildren { pids, idx } => idx < pids@.len(),
        DiscoveryPhase::ScanSocket { pids, idx } => idx < pids@.len(),
        _ => true,
    }
}

/// The event kind each phase awaits.
pub open spec fn expects(ph: &DiscoveryPhase, ev: &DiscoveryEvent) -> bool {
    match ph {
        DiscoveryPhase::HintProbe { .. } => ev is ProcFiles,
        DiscoveryPhase::Walk { .. } => ev is ProcFiles,
        DiscoveryPhase::ScanProbe { .. } => ev is ProcFiles,
        DiscoveryPhase::Clients => ev is ClientList,
        DiscoveryPhase::Scan => ev is ScanList,
        DiscoveryPhase::ScanChildren { .. } => ev is ChildList,
        DiscoveryPhase::HintSocket { .. } => ev is SocketCheck,
        DiscoveryPhase::WalkSocket { .. } => ev is SocketCheck,
        DiscoveryPhase::ScanSocket { .. } => ev is SocketCheck,
        DiscoveryPhase::Done { .. } => false,
    }
}

/// Discovery ended without an endpoint.
pub open spec fn rel_finish_none(post: &Discovery, r: DiscoveryAction) -> bool {
    &&& post.phase matches DiscoveryPhase::Done { result } && result is None
    &&& r matches DiscoveryAction::Finished(opt) && opt is None
}

/// Discovery ended with a validated endpoint for `pid`, stamped `now`.
pub open spec fn rel_finish_some(post: &Discovery, r: DiscoveryAction, pid: u32, now: u64) -> bool {
    &&& post.phase matches DiscoveryPhase::Done { result } && result == Some(pid)
    &&& r matches DiscoveryAction::Finished(opt) && opt matches Some(e) && e.pid == pid
        && e.validated_at == now && endpoint_wf(&e)
}

/// The machine moved on to the global-scan strategy.
pub open spec fn rel_strategy3(post: &Discovery, r: DiscoveryAction) -> bool {
    post.phase is Scan && r is ScanProcesses
}

/// The machine moved on to the multiplexer-ancestry strategy, or past it
/// when no session token is in hand.
pub open spec fn rel_strategy2(pre: &Discovery, post: &Discovery, r: DiscoveryAction) -> bool {
    if pre.token is Some {
        post.phase is Clients && r is ListClients
    } else {
        rel_strategy3(post, r)
    }
}

/// The scan moved on to candidate `next`, or ended when none is left.
pub open spec fn rel_scan_next(
    pids: Seq<u32>,
    next: int,
    post: &Discovery,
    r: DiscoveryAction,
) -> bool {
    if next < pids.len() {
        &&& post.phase matches DiscoveryPhase::ScanProbe { pids: p2, idx } && p2@ == pids && idx
            == next
        &&& r == DiscoveryAction::ReadProc(pids[next])
    } else {
        rel_finish_none(post, r)
    }
}

/// The machine's whole transition relation: how one event moves it from
/// `pre` to `post` and which action it emits.
pub open spec fn rel_step(
    pre: &Discovery,
    ev: &DiscoveryEvent,
    post: &Discovery,
    r: DiscoveryAction,
) -> bool {
    &&& post.now == pre.now
    &&& post.token == pre.token
    &&& match pre.phase {
        DiscoveryPhase::HintProbe { pid } => ev matches DiscoveryEvent::ProcFiles {
            cmdline,
            ..
        } && (if spec_meta_matches(bytes_of(&cmdline)) {
            post.phase matches DiscoveryPhase::HintSocket { pid: q } && q == pid && r
                == DiscoveryAction::CheckSocket(pid)
        } else {
            rel_strategy2(pre, post, r)
        }),
        DiscoveryPhase::HintSocket { pid } => ev matches DiscoveryEvent::SocketCheck(ok) && (if *ok {
            rel_finish_some(post, r, pid, pre.now)
        } else {
            rel_strategy2(pre, post, r)
        }),
        DiscoveryPhase::Clients => ev matches DiscoveryEvent::ClientList(opt) && match opt {
            Some(b) => match pre.token {
                Some(tok) => match spec_resolve_client(b@, tok@) {
                    Some(cpid) => {
                        &&& post.phase matches DiscoveryPhase::Walk { walk } && model_of(&walk)
                            == (WalkModel {
                            current: cpid,
                            visited: seq![cpid],
                            hops_left: MAX_ANCESTOR_HOPS,
                        })
                        &&& r == DiscoveryAction::ReadProc(cpid)
                    },
                    None => rel_strategy3(post, r),
                },
                None => false,
            },
            None => rel_strategy3(post, r),
        },
        DiscoveryPhase::Walk { walk } => ev matches DiscoveryEvent::ProcFiles {
            cmdline,
            stat,
        } && ({
            let meta = ProcessMeta {
                matches_signature: spec_meta_matches(bytes_of(&cmdline)),
                parent: spec_meta_parent(bytes_of(&stat)),
            };
            let sr = spec_walk_step(model_of(&walk), meta);
            match sr.1 {
                WalkOutcome::Probe(p) => post.phase matches DiscoveryPhase::Walk { walk: w2 }
                    && model_of(&w2) == sr.0 && r == DiscoveryAction::ReadProc(p),
                WalkOutcome::Found(p) => post.phase matches DiscoveryPhase::WalkSocket { pid }
                    && pid == p && r == DiscoveryAction::CheckSocket(p),
                WalkOutcome::NotFound => rel_strategy3(post, r),
            }
        }),
        DiscoveryPhase::WalkSocket { pid } => ev matches DiscoveryEvent::SocketCheck(ok) && (if *ok {
            rel_finish_some(post, r, pid, pre.now)
        } else {
            rel_strategy3(post, r)
        }),
        DiscoveryPhase::Scan => ev matches DiscoveryEvent::ScanList(opt) && match opt {
            Some(b) => rel_scan_next(spec_scan_pids(b@), 0, post, r),
            None => rel_finish_none(post, r),
        },
        DiscoveryPhase::ScanProbe { pids, idx } => ev matches DiscoveryEvent::ProcFiles {
            cmdline,
            ..
        } && (if spec_meta_matches(bytes_of(&cmdline)) {
            &&& post.phase matches DiscoveryPhase::ScanChildren { pids: p2, idx: i2 } && p2@
                == pids@ && i2 == idx
            &&& r == DiscoveryAction::ListChildren(pids@[idx as int])
        } else {
            rel_scan_next(pids@, idx + 1, post, r)
        }),
        DiscoveryPhase::ScanChildren { pids, idx } => ev matches DiscoveryEvent::ChildList(opt)
            && match opt {
            Some(b) => if b@.len() > 0 {
                &&& post.phase matches DiscoveryPhase::ScanSocket { pids: p2, idx: i2 } && p2@
                    == pids@ && i2 == idx
                &&& r == DiscoveryAction::CheckSocket(pids@[idx as int])
            } else {
                rel_scan_next(pids@, idx + 1, post, r)
            },
            None => rel_scan_next(pids@, idx + 1, post, r),
        },
        DiscoveryPhase::ScanSocket { pids, idx } => ev matches DiscoveryEvent::SocketCheck(ok) && (
        if *ok {
            rel_finish_some(post, r, pids@[idx as int], pre.now)
        } else {
            rel_scan_next(pids@, idx + 1, post, r)
        }),
        DiscoveryPhase::Done { .. } => false,
    }
}

impl Discovery {
    fn go_strategy3(&mut self) -> (r: DiscoveryAction)
        ensures
            rel_strategy3(final(self), r),
            final(self).token == old(self).token,
            final(self).now == old(self).now,
            disc_wf(final(self)),
    {
        self.phase = DiscoveryPhase::Scan;
        DiscoveryAction::ScanProcesses
    }

    fn go_strategy2(&mut self) -> (r: DiscoveryAction)
        ensures
            rel_strategy2(old(self), final(self), r),
            final(self).token == old(self).token,
            final(self).now == old(self).now,
            disc_wf(final(self)),
    {
        let has_token = match &self.token {
            Some(_) => true,
            None => false,
        };
        if has_token {
            self.phase = DiscoveryPhase::Clients;
            DiscoveryAction::ListClients
        } else {
            self.go_strategy3()
        }
    }

    fn finish_none(&mut self) -> (r: DiscoveryAction)
        ensures
            rel_finish_none(final(self), r),
            final(self).token == old(self).token,
            final(self).now == old(self).now,
            disc_wf(final(self)),
    {
        self.phase = DiscoveryPhase::Done { result: None };
        DiscoveryAction::Finished(None)
    }

    fn finish_some(&mut self, pid: u32) -> (r: DiscoveryAction)
        ensures
            rel_finish_some(final(self), r, pid, old(self).now),
            final(self).token == old(self).token,
            final(self).now == old(self).now,
            disc_wf(final(self)),
    {
        self.phase = DiscoveryPhase::Done { result: Some(pid) };
        DiscoveryAction::Finished(Some(KittyRemoteInfo::new(pid, self.now)))
    }

    fn scan_next(&mut self, pids: Vec<u32>, next: usize) -> (r: DiscoveryAction)
        ensures
            rel_scan_next(pids@, next as int, final(self), r),
            final(self).token == old(self).token,
            final(self).now == old(self).now,
            disc_wf(final(self)),
    {
        if next < pids.len() {
            let a = DiscoveryAction::ReadProc(pids[next]);
            self.phase = DiscoveryPhase::ScanProbe { pids, idx: next };
            a
        } else {
            self.finish_none()
        }
    }

    /// Starts discovery: the environment hint is probed first if it parses
    /// as a process identifier; otherwise the multiplexer strategy runs if
    /// a session token can be read from the environment descriptor; the
    /// global scan is last.
    pub fn start(env_hint: Option<Vec<u8>>, tmux_env: Option<Vec<u8>>, now: u64) -> (res: (
        Discovery,
        DiscoveryAction,
    ))
        ensures
            res.0.now == now,
            disc_wf(&res.0),
            match tmux_env {
                Some(t) => match spec_session_token(t@) {
                    Some(tv) => res.0.token matches Some(v) && v@ == tv,
                    None => res.0.token is None,
                },
                None => res.0.token is None,
            },
            ({
                let hint_pid = match env_hint {
                    Some(h) => spec_parse_u32(h@),
                    None => None,
                };
                match hint_pid {
                    Some(pid) => res.0.phase matches DiscoveryPhase::HintProbe { pid: q } && q
                        == pid && res.1 == DiscoveryAction::ReadProc(pid),
                    None => rel_strategy2(&res.0, &res.0, res.1),
                }
            }),
    {
        let token = match &tmux_env {
            Some(t) => parse_session_token(t.as_slice()),
            None => None,
        };
        let hint_pid = match &env_hint {
            Some(h) => parse_u32(h.as_slice()),
            None => None,
        };
        let mut d = Discovery { now, token, phase: DiscoveryPhase::Done { result: None } };
        let action = match hint_pid {
            Some(pid) => {
                d.phase = DiscoveryPhase::HintProbe { pid };
                DiscoveryAction::ReadProc(pid)
            },
            None => d.go_strategy2(),
        };
        (d, action)
    }

    /// Feeds the result of the last action in and moves the machine one
    /// step.
    pub fn step(&mut self, event: DiscoveryEvent) -> (r: DiscoveryAction)
        requires
            disc_wf(old(self)),
            expects(&old(self).phase, &event),
        ensures
            disc_wf(final(self)),
            rel_step(old(self), &event, final(self), r),
    {
        let mut ph = DiscoveryPhase::Done { result: None };
        core::mem::swap(&mut ph, &mut self.phase);
        match (ph, event) {
            (DiscoveryPhase::HintProbe { pid }, DiscoveryEvent::ProcFiles { cmdline, stat }) => {
                let meta = process_meta(&cmdline, &stat);
                if meta.matches_signature {
                    self.phase = DiscoveryPhase::HintSocket { pid };
                    DiscoveryAction::CheckSocket(pid)
                } else {
                    self.go_strategy2()
                }
            },
            (DiscoveryPhase::HintSocket { pid }, DiscoveryEvent::SocketCheck(ok)) => {
                if ok {
                    self.finish_some(pid)
                } else {
                    self.go_strategy2()
                }
            },
            (DiscoveryPhase::Clients, DiscoveryEvent::ClientList(opt)) => {
                match opt {
                    Some(b) => {
                        let cpid = match &self.token {
                            Some(tok) => resolve_client_pid(b.as_slice(), tok.as_slice()),
                            None => {
                                proof {
                                    assert(false);
                                }
                                None
                            },
                        };
                        match cpid {
                            Some(cpid) => {
                                let walk = walk_start(cpid, MAX_ANCESTOR_HOPS);
                                self.phase = DiscoveryPhase::Walk { walk };
                                DiscoveryAction::ReadProc(cpid)
                            },
                            None => self.go_strategy3(),
                        }
                    },
                    None => self.go_strategy3(),
                }
            },
            (DiscoveryPhase::Walk { mut walk }, DiscoveryEvent::ProcFiles { cmdline, stat }) => {
                let meta = process_meta(&cmdline, &stat);
                match walk.step(meta) {
                    WalkOutcome::Probe(p) => {
                        self.phase = DiscoveryPhase::Walk { walk };
                        DiscoveryAction::ReadProc(p)
                    },
                    WalkOutcome::Found(p) => {
                        self.phase = DiscoveryPhase::WalkSocket { pid: p };
                        DiscoveryAction::CheckSocket(p)
                    },
                    WalkOutcome::NotFound => self.go_strategy3(),
                }
            },
            (DiscoveryPhase::WalkSocket { pid }, DiscoveryEvent::SocketCheck(ok)) => {
                if ok {
                    self.finish_some(pid)
                } else {
                    self.go_strategy3()
                }
            },
            (DiscoveryPhase::Scan, DiscoveryEvent::ScanList(opt)) => {
                match opt {
                    Some(b) => {
                        let pids = parse_scan_pids(b.as_slice());
                        self.scan_next(pids, 0)
                    },
                    None => self.finish_none(),
                }
            },
            (DiscoveryPhase::ScanProbe { pids, idx }, DiscoveryEvent::ProcFiles {
                cmdline,
                stat: _,
            }) => {
                let n = pids.len();
                proof {
                    assert(idx < n);
                }
                let meta = process_meta(&cmdline, &None);
                if meta.matches_signature {
                    let a = DiscoveryAction::ListChildren(pids[idx]);
                    self.phase = DiscoveryPhase::ScanChildren { pids, idx };
                    a
                } else {
                    self.scan_next(pids, idx + 1)
                }
            },
            (DiscoveryPhase::ScanChildren { pids, idx }, DiscoveryEvent::ChildList(opt)) => {
                let n = pids.len();
                proof {
                    assert(idx < n);
                }
                let has_child = match &opt {
                    Some(b) => b.len() > 0,
                    None => false,
                };
                if has_child {
                    let a = DiscoveryAction::CheckSocket(pids[idx]);
                    self.phase = DiscoveryPhase::ScanSocket { pids, idx };
                    a
                } else {
                    self.scan_next(pids, idx + 1)
                }
            },
            (DiscoveryPhase::ScanSocket { pids, idx }, DiscoveryEvent::SocketCheck(ok)) => {
                let n = pids.len();
                proof {
                    assert(idx < n);
                }
                if ok {
                    self.finish_some(pids[idx])
                } else {
                    self.scan_next(pids, idx + 1)
                }
            },
            _ => {
                proof {
                    assert(false);
                }
                DiscoveryAction::Finished(None)
            },
        }
    }
}

} // verus!

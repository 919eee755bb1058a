//! Command dispatch: an event-driven machine that takes a live endpoint
//! from the cache (re-validating it), falls back to discovery when the
//! cache is empty or stale, sends the command over the primary transport,
//! and on a primary failure invalidates the cache, re-discovers exactly
//! once and retries once, before falling back to the secondary transports
//! for the commands that have one.

use vstd::prelude::*;
use crate::cache::{EndpointCache, KittyRemoteInfo, spec_candidate};
use crate::discovery::bytes_of;
use crate::introspect::spec_meta_matches;

verus! {

/// A remote-control command: the verb and its parameters, in order.
pub struct CommandRequest {
    pub args: Vec<String>,
}

/// The two commands with a pre-agreed secondary-transport encoding.
#[derive(Clone, Copy, Debug, PartialEq, Eq, Structural)]
pub enum FallbackKind {
    SetImage,
    Clear,
}

/// A typed dispatch failure.
pub enum DispatchFailure {
    /// Discovery exhausted every strategy; not fatal for most callers.
    NotFound,
    /// The primary and every applicable fallback transport failed; the
    /// transport's diagnostic text is attached.
    Transport(String),
    /// The endpoint answered with output that does not parse into the
    /// expected structure; never retried.
    MalformedResponse(String),
}

/// What a dispatch ends with.
pub enum DispatchOutcome {
    /// The raw output of the transport that succeeded.
    Success(Vec<u8>),
    Failed(DispatchFailure),
}

/// Which fallback a command supports: only setting and clearing the
/// background image have one.  Clearing is the set verb with the reserved
/// argument `none`.
pub open spec fn spec_fallback_kind(args: Seq<Seq<char>>) -> Option<FallbackKind> {
    if args.len() == 2 && args[0] == "set-background-image"@ {
        if args[1] == "none"@ {
            Some(FallbackKind::Clear)
        } else {
            Some(FallbackKind::SetImage)
        }
    } else {
        None
    }
}

/// Indexing the deep view of a vector of strings.
proof fn lemma_deep_index_str(v: &Vec<String>, i: int)
    requires
        0 <= i < v@.len(),
    ensures
        v.deep_view()[i] == v@[i]@,
{
}

impl CommandRequest {
    pub fn new(args: Vec<String>) -> (r: Self)
        ensures
            r.args == args,
    {
        CommandRequest { args }
    }

    /// Classifies the command's fallback support.
    pub fn fallback_kind(&self) -> (r: Option<FallbackKind>)
        ensures
            r == spec_fallback_kind(self.args.deep_view()),
    {
        if self.args.len() != 2 {
            return None;
        }
        proof {
            lemma_deep_index_str(&self.args, 0);
            lemma_deep_index_str(&self.args, 1);
        }
        let verb = String::from_str("set-background-image");
        if !(self.args[0] == verb) {
            return None;
        }
        let none_arg = String::from_str("none");
        if self.args[1] == none_arg {
            Some(FallbackKind::Clear)
        } else {
            Some(FallbackKind::SetImage)
        }
    }
}

/// The reply of one primary-transport attempt that did spawn.
pub struct PrimaryReply {
    pub success: bool,
    pub stdout: Vec<u8>,
    pub stderr: String,
}

/// What the machine asks the embedding program to do next.
pub enum DispatchAction {
    /// Read `/proc/<pid>/cmdline` for re-validation.
    ReadCmdLine(u32),
    /// Test whether the socket file derived from the process exists.
    CheckSocket(u32),
    /// Run the discovery machine to completion.
    RunDiscovery,
    /// Issue the command against the endpoint over the primary transport.
    SendPrimary { endpoint: KittyRemoteInfo },
    /// Send the pre-agreed encoding over the secondary transport: through
    /// the multiplexer when inside one, else straight to the terminal.
    SendFallback { kind: FallbackKind, via_multiplexer: bool },
    /// Dispatch is over.
    Finished(DispatchOutcome),
}

/// The raw result of the action the machine asked for last.
pub enum DispatchEvent {
    /// The command-line file, absent if unreadable.
    CmdLine(Option<Vec<u8>>),
    /// Whether the socket file exists.
    SocketCheck(bool),
    /// What discovery found.
    DiscoveryResult(Option<KittyRemoteInfo>),
    /// The primary transport's reply, absent if it could not be run.
    PrimaryResult(Option<PrimaryReply>),
    /// The fallback transport's diagnostic, if it failed.
    FallbackResult(Option<String>),
}

/// Where the machine stands between events.
pub enum DispatchPhase {
    /// Awaiting the cached endpoint's command line.
    Reval1 { e: KittyRemoteInfo },
    /// Awaiting the cached endpoint's socket check.
    Reval2 { e: KittyRemoteInfo },
    /// Awaiting a discovery result; `after_failure` marks the single
    /// re-discovery that follows a primary failure.
    Discovering { after_failure: bool },
    /// Awaiting a primary-transport reply; `retry` marks the single
    /// retry after re-discovery.
    Sending { e: KittyRemoteInfo, retry: bool },
    /// Awaiting the fallback transport's verdict.
    Fallback,
    /// Dispatch is over.
    Done,
}

/// One dispatch in progress.
pub struct DispatchRun {
    /// The command's fallback support, fixed at the start.
    pub fallback: Option<FallbackKind>,
    /// Whether the program runs inside the multiplexer.
    pub in_tmux: bool,
    /// The clock reading the dispatch started at.
    pub now: u64,
    /// Discovery runs asked for so far.
    pub discoveries: u32,
    /// Primary-transport attempts made so far.
    pub primaries: u32,
    /// The diagnostic of the last failed primary attempt.
    pub last_error: Option<String>,
    pub phase: DispatchPhase,
}

/// The diagnostic recorded when the primary transport cannot be run at
/// all.
pub open spec fn spawn_failure_text() -> Seq<char> {
    "failed to run the primary transport"@
}

/// The bookkeeping every reachable dispatch state obeys: at most two
/// discovery runs and two primary attempts ever, re-validation precedes
/// both, a re-discovery carries the failure diagnostic, and a retry is
/// always the second attempt.
pub open spec fn drun_wf(run: &DispatchRun) -> bool {
    &&& run.discoveries <= 2
    &&& run.primaries <= 2
    &&& match run.phase {
        DispatchPhase::Reval1 { .. } => run.discoveries == 0 && run.primaries == 0,
        DispatchPhase::Reval2 { .. } => run.discoveries == 0 && run.primaries == 0,
        DispatchPhase::Discovering { after_failure } => if after_failure {
            run.primaries == 1 && 1 <= run.discoveries <= 2 && run.last_error is Some
        } else {
            run.primaries == 0 && run.discoveries == 1
        },
        DispatchPhase::Sending { retry, .. } => if retry {
            run.primaries == 2 && 1 <= run.discoveries <= 2
        } else {
            run.primaries == 1 && run.discoveries <= 1
        },
        DispatchPhase::Fallback => true,
        DispatchPhase::Done => true,
    }
}

/// The event kind each phase awaits.
pub open spec fn dexpects(ph: &DispatchPhase, ev: &DispatchEvent) -> bool {
    match ph {
        DispatchPhase::Reval1 { .. } => ev is CmdLine,
        DispatchPhase::Reval2 { .. } => ev is SocketCheck,
        DispatchPhase::Discovering { .. } => ev is DiscoveryResult,
        DispatchPhase::Sending { .. } => ev is PrimaryResult,
        DispatchPhase::Fallback => ev is FallbackResult,
        DispatchPhase::Done => false,
    }
}

/// The primary transport is out of reach or out of retries: the machine
/// falls back when the command supports it, else it fails — with the
/// primary diagnostic `msg` when one attempt was made, else as not found.
pub open spec fn rel_no_primary(
    pre: &DispatchRun,
    post: &DispatchRun,
    r: DispatchAction,
    msg: Option<Seq<char>>,
) -> bool {
    match pre.fallback {
        Some(k) => {
            &&& post.phase is Fallback
            &&& r matches DispatchAction::SendFallback { kind, via_multiplexer } && kind == k
                && via_multiplexer == pre.in_tmux
        },
        None => {
            &&& post.phase is Done
            &&& match msg {
                None => r matches DispatchAction::Finished(DispatchOutcome::Failed(
                    DispatchFailure::NotFound,
                )),
                Some(m) => r matches DispatchAction::Finished(DispatchOutcome::Failed(
                    DispatchFailure::Transport(s),
                )) && s@ == m,
            }
        },
    }
}

/// The machine's whole transition relation: how one event moves the run
/// from `pre` to `post`, what it does to the cache, and which action it
/// emits.
pub open spec fn rel_dispatch_step(
    pre_cache: &EndpointCache,
    pre: &DispatchRun,
    ev: &DispatchEvent,
    post_cache: &EndpointCache,
    post: &DispatchRun,
    r: DispatchAction,
) -> bool {
    &&& post.fallback == pre.fallback
    &&& post.in_tmux == pre.in_tmux
    &&& post.now == pre.now
    &&& post_cache.ttl == pre_cache.ttl
    &&& match pre.phase {
        DispatchPhase::Reval1 { e } => ev matches DispatchEvent::CmdLine(cl) && (if spec_meta_matches(
            bytes_of(&cl),
        ) {
            &&& post.phase matches DispatchPhase::Reval2 { e: e2 } && e2 == e
            &&& r == DispatchAction::CheckSocket(e.pid)
            &&& post_cache.entry == pre_cache.entry
            &&& post.discoveries == pre.discoveries && post.primaries == pre.primaries
        } else {
            &&& post.phase matches DispatchPhase::Discovering { after_failure: false }
            &&& r is RunDiscovery
            &&& post_cache.entry is None
            &&& post.discoveries == pre.discoveries + 1 && post.primaries == pre.primaries
        }),
        DispatchPhase::Reval2 { e } => ev matches DispatchEvent::SocketCheck(ok) && (if *ok {
            &&& post.phase matches DispatchPhase::Sending { e: e2, retry } && e2 == e && !retry
            &&& r matches DispatchAction::SendPrimary { endpoint } && endpoint == e
            &&& post_cache.entry == pre_cache.entry
            &&& post.discoveries == pre.discoveries && post.primaries == pre.primaries + 1
        } else {
            &&& post.phase matches DispatchPhase::Discovering { after_failure: false }
            &&& r is RunDiscovery
            &&& post_cache.entry is None
            &&& post.discoveries == pre.discoveries + 1 && post.primaries == pre.primaries
        }),
        DispatchPhase::Discovering { after_failure } => ev matches DispatchEvent::DiscoveryResult(
            found,
        ) && match found {
            Some(e) => {
                &&& post.phase matches DispatchPhase::Sending { e: e2, retry } && e2 == e && retry
                    == after_failure
                &&& r matches DispatchAction::SendPrimary { endpoint } && endpoint == e
                &&& post_cache.entry == Some(*e)
                &&& post.discoveries == pre.discoveries && post.primaries == pre.primaries + 1
            },
            None => {
                &&& post_cache.entry == pre_cache.entry
                &&& post.discoveries == pre.discoveries && post.primaries == pre.primaries
                &&& if after_failure {
                    pre.last_error matches Some(m) && rel_no_primary(pre, post, r, Some(m@))
                } else {
                    rel_no_primary(pre, post, r, None)
                }
            },
        },
        DispatchPhase::Sending { e, retry } => ev matches DispatchEvent::PrimaryResult(reply)
            && match reply {
            Some(rep) => if rep.success {
                &&& post.phase is Done
                &&& r matches DispatchAction::Finished(DispatchOutcome::Success(out)) && out
                    == rep.stdout
                &&& post_cache.entry == pre_cache.entry
                &&& post.discoveries == pre.discoveries && post.primaries == pre.primaries
            } else {
                rel_primary_failed(pre_cache, pre, post_cache, post, r, retry, rep.stderr@)
            },
            None => rel_primary_failed(
                pre_cache,
                pre,
                post_cache,
                post,
                r,
                retry,
                spawn_failure_text(),
            ),
        },
        DispatchPhase::Fallback => ev matches DispatchEvent::FallbackResult(verdict) && match verdict {
            None => {
                &&& post.phase is Done
                &&& r matches DispatchAction::Finished(DispatchOutcome::Success(out)) && out@
                    == Seq::<u8>::empty()
                &&& post_cache.entry == pre_cache.entry
                &&& post.discoveries == pre.discoveries && post.primaries == pre.primaries
            },
            Some(m) => {
                &&& post.phase is Done
                &&& r matches DispatchAction::Finished(DispatchOutcome::Failed(
                    DispatchFailure::Transport(s),
                )) && s == m
                &&& post_cache.entry == pre_cache.entry
                &&& post.discoveries == pre.discoveries && post.primaries == pre.primaries
            },
        },
        DispatchPhase::Done => false,
    }
}

/// A primary attempt failed with diagnostic `err`: on the first failure
/// the cache is invalidated and the one re-discovery starts; on a retry
/// failure the machine falls back or surfaces the failure.  No path makes
/// a third attempt.
pub open spec fn rel_primary_failed(
    pre_cache: &EndpointCache,
    pre: &DispatchRun,
    post_cache: &EndpointCache,
    post: &DispatchRun,
    r: DispatchAction,
    retry: bool,
    err: Seq<char>,
) -> bool {
    if !retry {
        &&& post.phase matches DispatchPhase::Discovering { after_failure: true }
        &&& r is RunDiscovery
        &&& post_cache.entry is None
        &&& post.discoveries == pre.discoveries + 1 && post.primaries == pre.primaries
        &&& post.last_error matches Some(m) && m@ == err
    } else {
        &&& post_cache.entry == pre_cache.entry
        &&& post.discoveries == pre.discoveries && post.primaries == pre.primaries
        &&& rel_no_primary(pre, post, r, Some(err))
    }
}

impl DispatchRun {
    fn no_primary(&mut self, msg: Option<String>) -> (r: DispatchAction)
        ensures
            rel_no_primary(old(self), final(self), r, match msg {
                Some(m) => Some(m@),
                None => None,
            }),
            final(self).fallback == old(self).fallback,
            final(self).in_tmux == old(self).in_tmux,
            final(self).now == old(self).now,
            final(self).discoveries == old(self).discoveries,
            final(self).primaries == old(self).primaries,
            final(self).last_error == old(self).last_error,
    {
        match self.fallback {
            Some(k) => {
                self.phase = DispatchPhase::Fallback;
                DispatchAction::SendFallback { kind: k, via_multiplexer: self.in_tmux }
            },
            None => {
                self.phase = DispatchPhase::Done;
                match msg {
                    None => DispatchAction::Finished(
                        DispatchOutcome::Failed(DispatchFailure::NotFound),
                    ),
                    Some(m) => DispatchAction::Finished(
                        DispatchOutcome::Failed(DispatchFailure::Transport(m)),
                    ),
                }
            },
        }
    }

    /// Starts a dispatch of `cmd`: a fresh cached endpoint goes into
    /// re-validation, an empty or stale cache goes straight to discovery.
    pub fn start(cache: &mut EndpointCache, cmd: &CommandRequest, now: u64, in_tmux: bool) -> (res:
        (DispatchRun, DispatchAction))
        ensures
            drun_wf(&res.0),
            res.0.fallback == spec_fallback_kind(cmd.args.deep_view()),
            res.0.in_tmux == in_tmux,
            res.0.now == now,
            final(cache).ttl == old(cache).ttl,
            match spec_candidate(old(cache).entry, now, old(cache).ttl) {
                Some(e) => {
                    &&& res.0.phase matches DispatchPhase::Reval1 { e: e2 } && e2 == e
                    &&& res.1 == DispatchAction::ReadCmdLine(e.pid)
                    &&& final(cache).entry == old(cache).entry
                },
                None => {
                    &&& res.0.phase matches DispatchPhase::Discovering { after_failure: false }
                    &&& res.1 is RunDiscovery
                    &&& final(cache).entry is None
                },
            },
    {
        let fallback = cmd.fallback_kind();
        let mut run = DispatchRun {
            fallback,
            in_tmux,
            now,
            discoveries: 0,
            primaries: 0,
            last_error: None,
            phase: DispatchPhase::Done,
        };
        match cache.candidate(now) {
            Some(e) => {
                let action = DispatchAction::ReadCmdLine(e.pid);
                run.phase = DispatchPhase::Reval1 { e };
                (run, action)
            },
            None => {
                run.discoveries = 1;
                run.phase = DispatchPhase::Discovering { after_failure: false };
                (run, DispatchAction::RunDiscovery)
            },
        }
    }

    /// Feeds the result of the last action in and moves the dispatch one
    /// step.
    pub fn step(&mut self, cache: &mut EndpointCache, event: DispatchEvent) -> (r: DispatchAction)
        requires
            drun_wf(old(self)),
            dexpects(&old(self).phase, &event),
        ensures
            drun_wf(final(self)),
            rel_dispatch_step(old(cache), old(self), &event, final(cache), final(self), r),
    {
        let mut ph = DispatchPhase::Done;
        core::mem::swap(&mut ph, &mut self.phase);
        match (ph, event) {
            (DispatchPhase::Reval1 { e }, DispatchEvent::CmdLine(cl)) => {
                let sig_ok = match &cl {
                    Some(c) => crate::introspect::signature_matches(c.as_slice()),
                    None => false,
                };
                if sig_ok {
                    let action = DispatchAction::CheckSocket(e.pid);
                    self.phase = DispatchPhase::Reval2 { e };
                    action
                } else {
                    cache.invalidate();
                    self.discoveries = self.discoveries + 1;
                    self.phase = DispatchPhase::Discovering { after_failure: false };
                    DispatchAction::RunDiscovery
                }
            },
            (DispatchPhase::Reval2 { e }, DispatchEvent::SocketCheck(ok)) => {
                if ok {
                    self.primaries = self.primaries + 1;
                    let endpoint = e.duplicate();
                    self.phase = DispatchPhase::Sending { e, retry: false };
                    DispatchAction::SendPrimary { endpoint }
                } else {
                    cache.invalidate();
                    self.discoveries = self.discoveries + 1;
                    self.phase = DispatchPhase::Discovering { after_failure: false };
                    DispatchAction::RunDiscovery
                }
            },
            (DispatchPhase::Discovering { after_failure }, DispatchEvent::DiscoveryResult(found)) => {
                match found {
                    Some(e) => {
                        cache.set(e.duplicate());
                        self.primaries = self.primaries + 1;
                        let endpoint = e.duplicate();
                        self.phase = DispatchPhase::Sending { e, retry: after_failure };
                        DispatchAction::SendPrimary { endpoint }
                    },
                    None => {
                        if after_failure {
                            let msg = match &self.last_error {
                                Some(m) => m.clone(),
                                None => {
                                    proof {
                                        assert(false);
                                    }
                                    String::new()
                                },
                            };
                            self.no_primary(Some(msg))
                        } else {
                            self.no_primary(None)
                        }
                    },
                }
            },
            (DispatchPhase::Sending { e, retry }, DispatchEvent::PrimaryResult(reply)) => {
                match reply {
                    Some(rep) => {
                        if rep.success {
                            self.phase = DispatchPhase::Done;
                            DispatchAction::Finished(DispatchOutcome::Success(rep.stdout))
                        } else {
                            self.primary_failed(cache, retry, rep.stderr)
                        }
                    },
                    None => {
                        let msg = String::from_str("failed to run the primary transport");
                        self.primary_failed(cache, retry, msg)
                    },
                }
            },
            (DispatchPhase::Fallback, DispatchEvent::FallbackResult(verdict)) => {
                match verdict {
                    None => {
                        self.phase = DispatchPhase::Done;
                        let out: Vec<u8> = Vec::new();
                        DispatchAction::Finished(DispatchOutcome::Success(out))
                    },
                    Some(m) => {
                        self.phase = DispatchPhase::Done;
                        DispatchAction::Finished(
                            DispatchOutcome::Failed(DispatchFailure::Transport(m)),
                        )
                    },
                }
            },
            _ => {
                proof {
                    assert(false);
                }
                DispatchAction::Finished(DispatchOutcome::Failed(DispatchFailure::NotFound))
            },
        }
    }

    fn primary_failed(&mut self, cache: &mut EndpointCache, retry: bool, err: String) -> (r:
        DispatchAction)
        requires
            old(self).phase is Done,
            !retry ==> old(self).discoveries <= 1,
        ensures
            rel_primary_failed(old(cache), old(self), final(cache), final(self), r, retry, err@),
            final(self).fallback == old(self).fallback,
            final(self).in_tmux == old(self).in_tmux,
            final(self).now == old(self).now,
            final(cache).ttl == old(cache).ttl,
            !retry ==> (final(self).phase matches DispatchPhase::Discovering { after_failure: true }
                && final(self).discoveries == old(self).discoveries + 1 && final(self).primaries
                == old(self).primaries && final(self).last_error is Some),
            retry ==> final(self).discoveries == old(self).discoveries && final(self).primaries
                == old(self).primaries,
    {
        if !retry {
            cache.invalidate();
            self.last_error = Some(err);
            self.discoveries = self.discoveries + 1;
            self.phase = DispatchPhase::Discovering { after_failure: true };
            DispatchAction::RunDiscovery
        } else {
            self.no_primary(Some(err))
        }
    }
}

/// Law: a dispatch never runs discovery more than twice nor tries the
/// primary transport more than twice — a primary failure triggers at most
/// one more discovery and one more attempt before falling back or
/// failing.
pub proof fn lemma_dispatch_retry_bound(run: &DispatchRun)
    requires
        drun_wf(run),
    ensures
        run.primaries <= 2,
        run.discoveries <= 2,
{
}

} // verus!

use kitty_pane_bg::cache::{EndpointCache, KittyRemoteInfo, ENDPOINT_TTL_SECS};
use kitty_pane_bg::dispatch::{
    CommandRequest, DispatchAction, DispatchEvent, DispatchFailure, DispatchOutcome, FallbackKind,
    PrimaryReply,
};
use kitty_pane_bg::dispatch::DispatchRun;

fn cmd(args: &[&str]) -> CommandRequest {
    CommandRequest::new(args.iter().map(|a| a.to_string()).collect())
}

fn ls_cmd() -> CommandRequest {
    cmd(&["ls"])
}

#[test]
fn fallback_classification() {
    assert_eq!(cmd(&["set-background-image", "/tmp/x.png"]).fallback_kind(),
        Some(FallbackKind::SetImage));
    assert_eq!(cmd(&["set-background-image", "none"]).fallback_kind(), Some(FallbackKind::Clear));
    assert_eq!(cmd(&["ls"]).fallback_kind(), None);
    assert_eq!(cmd(&["set-background-image"]).fallback_kind(), None);
    assert_eq!(cmd(&["set-background-image", "a", "b"]).fallback_kind(), None);
}

// A fresh cached endpoint passes re-validation and the first attempt
// succeeds against exactly the stored endpoint.
#[test]
fn cached_endpoint_is_revalidated_and_used() {
    let mut cache = EndpointCache::new(ENDPOINT_TTL_SECS);
    cache.set(KittyRemoteInfo::new(42, 100));
    let (mut run, a) = DispatchRun::start(&mut cache, &ls_cmd(), 100, false);
    assert!(matches!(a, DispatchAction::ReadCmdLine(42)));
    let a = run.step(&mut cache, DispatchEvent::CmdLine(Some(b"/usr/bin/kitty".to_vec())));
    assert!(matches!(a, DispatchAction::CheckSocket(42)));
    let a = run.step(&mut cache, DispatchEvent::SocketCheck(true));
    match a {
        DispatchAction::SendPrimary { endpoint } => {
            assert_eq!(endpoint.pid, 42);
            assert_eq!(endpoint.socket_path, "unix:/tmp/kitty-42");
        },
        _ => panic!("expected a primary attempt"),
    }
    let reply = PrimaryReply { success: true, stdout: b"[]".to_vec(), stderr: String::new() };
    let a = run.step(&mut cache, DispatchEvent::PrimaryResult(Some(reply)));
    match a {
        DispatchAction::Finished(DispatchOutcome::Success(out)) => assert_eq!(out, b"[]".to_vec()),
        _ => panic!("expected success"),
    }
    assert_eq!(run.primaries, 1);
    assert_eq!(run.discoveries, 0);
}

// An empty cache goes to discovery; success populates the cache and the
// first attempt succeeds.
#[test]
fn discovery_populates_cache_then_first_attempt_succeeds() {
    let mut cache = EndpointCache::new(ENDPOINT_TTL_SECS);
    let (mut run, a) = DispatchRun::start(&mut cache, &ls_cmd(), 100, false);
    assert!(matches!(a, DispatchAction::RunDiscovery));
    let e = KittyRemoteInfo::new(1234, 100);
    let a = run.step(&mut cache, DispatchEvent::DiscoveryResult(Some(e)));
    match a {
        DispatchAction::SendPrimary { endpoint } => assert_eq!(endpoint.pid, 1234),
        _ => panic!("expected a primary attempt"),
    }
    assert_eq!(cache.candidate(100).unwrap().pid, 1234);
    let reply = PrimaryReply { success: true, stdout: b"ok".to_vec(), stderr: String::new() };
    let a = run.step(&mut cache, DispatchEvent::PrimaryResult(Some(reply)));
    assert!(matches!(a, DispatchAction::Finished(DispatchOutcome::Success(_))));
}

// A stale cache entry is never used: dispatch goes straight to discovery.
#[test]
fn stale_cache_entry_forces_discovery() {
    let mut cache = EndpointCache::new(ENDPOINT_TTL_SECS);
    cache.set(KittyRemoteInfo::new(42, 0));
    let (_run, a) = DispatchRun::start(&mut cache, &ls_cmd(), 600, false);
    assert!(matches!(a, DispatchAction::RunDiscovery));
}

// A primary failure triggers exactly one re-discovery and one retry, and
// never more; with no fallback the primary diagnostic is surfaced.
#[test]
fn retry_law_one_rediscovery_one_retry() {
    let mut cache = EndpointCache::new(ENDPOINT_TTL_SECS);
    cache.set(KittyRemoteInfo::new(42, 100));
    let (mut run, _a) = DispatchRun::start(&mut cache, &ls_cmd(), 100, false);
    let _ = run.step(&mut cache, DispatchEvent::CmdLine(Some(b"kitty".to_vec())));
    let a = run.step(&mut cache, DispatchEvent::SocketCheck(true));
    assert!(matches!(a, DispatchAction::SendPrimary { .. }));
    assert_eq!(run.primaries, 1);
    // First failure: the cache is cleared and one re-discovery starts.
    let reply = PrimaryReply {
        success: false,
        stdout: Vec::new(),
        stderr: "connection refused".to_string(),
    };
    let a = run.step(&mut cache, DispatchEvent::PrimaryResult(Some(reply)));
    assert!(matches!(a, DispatchAction::RunDiscovery));
    assert_eq!(run.discoveries, 1);
    // Re-discovery found a new endpoint: exactly one retry.
    let a = run.step(&mut cache, DispatchEvent::DiscoveryResult(Some(KittyRemoteInfo::new(
        43, 100,
    ))));
    match &a {
        DispatchAction::SendPrimary { endpoint } => assert_eq!(endpoint.pid, 43),
        _ => panic!("expected the one retry"),
    }
    assert_eq!(run.primaries, 2);
    // The retry fails too: no further discovery or attempt, the failure
    // is surfaced with the transport's diagnostic.
    let reply = PrimaryReply {
        success: false,
        stdout: Vec::new(),
        stderr: "still refused".to_string(),
    };
    let a = run.step(&mut cache, DispatchEvent::PrimaryResult(Some(reply)));
    match a {
        DispatchAction::Finished(DispatchOutcome::Failed(DispatchFailure::Transport(m))) => {
            assert_eq!(m, "still refused");
        },
        _ => panic!("expected a surfaced transport failure"),
    }
    assert_eq!(run.primaries, 2);
    assert_eq!(run.discoveries, 1);
}

// All strategies exhausted with a fallback-capable command: the dispatcher
// falls back to the escape-sequence transport and succeeds.
#[test]
fn exhausted_discovery_falls_back_for_background_set() {
    let mut cache = EndpointCache::new(ENDPOINT_TTL_SECS);
    let set_cmd = cmd(&["set-background-image", "/tmp/bg.png"]);
    let (mut run, a) = DispatchRun::start(&mut cache, &set_cmd, 0, false);
    assert!(matches!(a, DispatchAction::RunDiscovery));
    let a = run.step(&mut cache, DispatchEvent::DiscoveryResult(None));
    match a {
        DispatchAction::SendFallback { kind, via_multiplexer } => {
            assert_eq!(kind, FallbackKind::SetImage);
            assert!(!via_multiplexer);
        },
        _ => panic!("expected the escape-sequence fallback"),
    }
    let a = run.step(&mut cache, DispatchEvent::FallbackResult(None));
    assert!(matches!(a, DispatchAction::Finished(DispatchOutcome::Success(_))));
}

// Inside the multiplexer the fallback goes through its pass-through.
#[test]
fn fallback_uses_passthrough_inside_multiplexer() {
    let mut cache = EndpointCache::new(ENDPOINT_TTL_SECS);
    let clear_cmd = cmd(&["set-background-image", "none"]);
    let (mut run, _a) = DispatchRun::start(&mut cache, &clear_cmd, 0, true);
    let a = run.step(&mut cache, DispatchEvent::DiscoveryResult(None));
    match a {
        DispatchAction::SendFallback { kind, via_multiplexer } => {
            assert_eq!(kind, FallbackKind::Clear);
            assert!(via_multiplexer);
        },
        _ => panic!("expected the pass-through fallback"),
    }
    let a = run.step(&mut cache, DispatchEvent::FallbackResult(Some(
        "run-shell failed".to_string(),
    )));
    match a {
        DispatchAction::Finished(DispatchOutcome::Failed(DispatchFailure::Transport(m))) => {
            assert_eq!(m, "run-shell failed");
        },
        _ => panic!("expected the fallback failure surfaced"),
    }
}

// An arbitrary verb has no fallback: exhausted discovery is reported as
// not found, with no fallback attempted.
#[test]
fn unsupported_verb_reports_not_found() {
    let mut cache = EndpointCache::new(ENDPOINT_TTL_SECS);
    let (mut run, a) = DispatchRun::start(&mut cache, &ls_cmd(), 0, true);
    assert!(matches!(a, DispatchAction::RunDiscovery));
    let a = run.step(&mut cache, DispatchEvent::DiscoveryResult(None));
    assert!(matches!(
        a,
        DispatchAction::Finished(DispatchOutcome::Failed(DispatchFailure::NotFound))
    ));
}

// A transport that cannot even be spawned counts as a failure with the
// fixed diagnostic.
#[test]
fn unspawnable_primary_counts_as_failure() {
    let mut cache = EndpointCache::new(ENDPOINT_TTL_SECS);
    let (mut run, _a) = DispatchRun::start(&mut cache, &ls_cmd(), 0, false);
    let _ = run.step(&mut cache, DispatchEvent::DiscoveryResult(Some(KittyRemoteInfo::new(9, 0))));
    let a = run.step(&mut cache, DispatchEvent::PrimaryResult(None));
    assert!(matches!(a, DispatchAction::RunDiscovery));
    let a = run.step(&mut cache, DispatchEvent::DiscoveryResult(None));
    match a {
        DispatchAction::Finished(DispatchOutcome::Failed(DispatchFailure::Transport(m))) => {
            assert_eq!(m, "failed to run the primary transport");
        },
        _ => panic!("expected the spawn-failure diagnostic"),
    }
}

// Failed re-validation clears the cache and goes to discovery.
#[test]
fn failed_revalidation_clears_and_discovers() {
    let mut cache = EndpointCache::new(ENDPOINT_TTL_SECS);
    cache.set(KittyRemoteInfo::new(42, 100));
    let (mut run, _a) = DispatchRun::start(&mut cache, &ls_cmd(), 100, false);
    // The process is no longer the target application.
    let a = run.step(&mut cache, DispatchEvent::CmdLine(Some(b"some-editor".to_vec())));
    assert!(matches!(a, DispatchAction::RunDiscovery));
    assert!(cache.candidate(100).is_none());
}

use kitty_pane_bg::discovery::{Discovery, DiscoveryAction, DiscoveryEvent};

fn proc_files(cmdline: Option<&[u8]>, stat: Option<&[u8]>) -> DiscoveryEvent {
    DiscoveryEvent::ProcFiles {
        cmdline: cmdline.map(|b| b.to_vec()),
        stat: stat.map(|b| b.to_vec()),
    }
}

// Environment hint names a matching process: strategy one succeeds.
#[test]
fn hint_strategy_finds_the_endpoint() {
    let (mut d, a) = Discovery::start(Some(b"1234".to_vec()), None, 100);
    assert!(matches!(a, DiscoveryAction::ReadProc(1234)));
    let a = d.step(proc_files(Some(b"/usr/bin/kitty"), None));
    assert!(matches!(a, DiscoveryAction::CheckSocket(1234)));
    let a = d.step(DiscoveryEvent::SocketCheck(true));
    match a {
        DiscoveryAction::Finished(Some(e)) => {
            assert_eq!(e.pid, 1234);
            assert_eq!(e.validated_at, 100);
            assert_eq!(e.socket_path, "unix:/tmp/kitty-1234");
        },
        _ => panic!("expected a validated endpoint"),
    }
}

// A hint that points at this tool's own binary is rejected and, with no
// multiplexer around, the global scan runs.
#[test]
fn hint_self_match_is_rejected() {
    let (mut d, a) = Discovery::start(Some(b"77".to_vec()), None, 0);
    assert!(matches!(a, DiscoveryAction::ReadProc(77)));
    let a = d.step(proc_files(Some(b"kitty-pane-bg set-background"), None));
    assert!(matches!(a, DiscoveryAction::ScanProcesses));
}

// An unparseable hint skips straight to the next strategy.
#[test]
fn unparseable_hint_is_skipped() {
    let (_d, a) = Discovery::start(Some(b"abc".to_vec()), None, 0);
    assert!(matches!(a, DiscoveryAction::ScanProcesses));
}

// Multiplexer session token 7 maps to client 555 whose ancestry holds a
// matching process at depth three: strategy two returns that process.
#[test]
fn multiplexer_ancestry_finds_the_endpoint() {
    let tmux = b"/tmp/tmux-1000/default,7,0".to_vec();
    let (mut d, a) = Discovery::start(None, Some(tmux), 50);
    assert!(matches!(a, DiscoveryAction::ListClients));
    let listing = b"100 5\n555 7\n".to_vec();
    let a = d.step(DiscoveryEvent::ClientList(Some(listing)));
    assert!(matches!(a, DiscoveryAction::ReadProc(555)));
    let a = d.step(proc_files(Some(b"tmux attach"), Some(b"555 (tmux) S 400 1")));
    assert!(matches!(a, DiscoveryAction::ReadProc(400)));
    let a = d.step(proc_files(Some(b"-zsh"), Some(b"400 (zsh) S 201 1")));
    assert!(matches!(a, DiscoveryAction::ReadProc(201)));
    let a = d.step(proc_files(Some(b"/usr/bin/kitty -1"), Some(b"201 (kitty) S 1 0")));
    assert!(matches!(a, DiscoveryAction::CheckSocket(201)));
    let a = d.step(DiscoveryEvent::SocketCheck(true));
    match a {
        DiscoveryAction::Finished(Some(e)) => {
            assert_eq!(e.pid, 201);
            assert_eq!(e.socket_path, "unix:/tmp/kitty-201");
        },
        _ => panic!("expected endpoint 201"),
    }
}

// A failed client query falls through to the scan.
#[test]
fn failed_client_query_falls_through() {
    let tmux = b"/tmp/tmux-1000/default,7,0".to_vec();
    let (mut d, a) = Discovery::start(None, Some(tmux), 0);
    assert!(matches!(a, DiscoveryAction::ListClients));
    let a = d.step(DiscoveryEvent::ClientList(None));
    assert!(matches!(a, DiscoveryAction::ScanProcesses));
}

// The global scan probes candidates in order, requires a live child and a
// socket, and skips candidates that fail either check.
#[test]
fn global_scan_validates_candidates() {
    let (mut d, a) = Discovery::start(None, None, 9);
    assert!(matches!(a, DiscoveryAction::ScanProcesses));
    let a = d.step(DiscoveryEvent::ScanList(Some(b"77\n88\n99\n".to_vec())));
    assert!(matches!(a, DiscoveryAction::ReadProc(77)));
    // 77 matches but has no children: skipped.
    let a = d.step(proc_files(Some(b"kitty --session x"), None));
    assert!(matches!(a, DiscoveryAction::ListChildren(77)));
    let a = d.step(DiscoveryEvent::ChildList(Some(b"".to_vec())));
    assert!(matches!(a, DiscoveryAction::ReadProc(88)));
    // 88 does not match: skipped.
    let a = d.step(proc_files(Some(b"some-editor"), None));
    assert!(matches!(a, DiscoveryAction::ReadProc(99)));
    // 99 matches, has a child, and its socket exists.
    let a = d.step(proc_files(Some(b"kitty"), None));
    assert!(matches!(a, DiscoveryAction::ListChildren(99)));
    let a = d.step(DiscoveryEvent::ChildList(Some(b"123\n".to_vec())));
    assert!(matches!(a, DiscoveryAction::CheckSocket(99)));
    let a = d.step(DiscoveryEvent::SocketCheck(true));
    match a {
        DiscoveryAction::Finished(Some(e)) => assert_eq!(e.pid, 99),
        _ => panic!("expected endpoint 99"),
    }
}

// All strategies exhausted: discovery reports no endpoint, not an error.
#[test]
fn exhausted_strategies_yield_nothing() {
    let (mut d, a) = Discovery::start(None, None, 0);
    assert!(matches!(a, DiscoveryAction::ScanProcesses));
    let a = d.step(DiscoveryEvent::ScanList(None));
    assert!(matches!(a, DiscoveryAction::Finished(None)));
}

// A candidate that fails socket validation is discarded and the next
// strategy runs.
#[test]
fn failed_validation_discards_the_candidate() {
    let (mut d, a) = Discovery::start(Some(b"5555".to_vec()), None, 0);
    assert!(matches!(a, DiscoveryAction::ReadProc(5555)));
    let a = d.step(proc_files(Some(b"kitty"), None));
    assert!(matches!(a, DiscoveryAction::CheckSocket(5555)));
    let a = d.step(DiscoveryEvent::SocketCheck(false));
    assert!(matches!(a, DiscoveryAction::ScanProcesses));
}

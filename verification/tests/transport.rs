use kitty_pane_bg::dispatch::{CommandRequest, DispatchFailure, DispatchOutcome};
use kitty_pane_bg::geometry::KittyGeometry;
use kitty_pane_bg::tmux::{
    hook_command, hook_names, parse_pane_line, parse_pane_listing, ParsedPaneLine, TmuxPane,
    TmuxSession, TmuxWindow,
};
use kitty_pane_bg::transport::{
    clear_background_sequence, primary_transport_args, printf_command, set_background_sequence,
};

// The payload is really base64 ("abc" encodes to "YWJj", "abcd" pads to
// "YWJjZA=="), wrapped in the transport's escape sequence.
#[test]
fn set_sequences_carry_base64_payload() {
    assert_eq!(set_background_sequence(b"abc", false), "\\e]20;YWJj\\e\\\\");
    assert_eq!(set_background_sequence(b"abcd", false), "\\e]20;YWJjZA==\\e\\\\");
    assert_eq!(
        set_background_sequence(b"abc", true),
        "\\ePtmux;\\e\\e]20;YWJj\\e\\e\\\\\\e\\\\"
    );
    assert_eq!(set_background_sequence(b"", false), "\\e]20;\\e\\\\");
}

#[test]
fn clear_sequences_are_the_empty_payload() {
    assert_eq!(clear_background_sequence(false), "\\e]20;\\e\\\\");
    assert_eq!(clear_background_sequence(true), "\\ePtmux;\\e\\e]20;\\e\\e\\\\\\e\\\\");
}

#[test]
fn printf_wraps_the_sequence() {
    assert_eq!(printf_command("\\e]20;\\e\\\\"), "printf '\\e]20;\\e\\\\'");
}

#[test]
fn primary_args_address_the_socket() {
    let cmd = CommandRequest::new(vec!["set-background-image".to_string(), "x.png".to_string()]);
    let args = primary_transport_args("unix:/tmp/kitty-42", &cmd);
    assert_eq!(
        args,
        vec![
            "@".to_string(),
            "--to".to_string(),
            "unix:/tmp/kitty-42".to_string(),
            "set-background-image".to_string(),
            "x.png".to_string(),
        ]
    );
}

#[test]
fn pane_line_parses_the_seven_fields() {
    let line = b"%1 @0 0 0 80 24 1";
    match parse_pane_line(line) {
        ParsedPaneLine::Pane(p) => {
            assert_eq!(p.id, "%1");
            assert_eq!(p.window_id, "@0");
            assert_eq!(p.x, 0);
            assert_eq!(p.y, 0);
            assert_eq!(p.width, 80);
            assert_eq!(p.height, 24);
            assert!(p.active);
        },
        _ => panic!("expected a pane"),
    }
    assert!(matches!(parse_pane_line(b""), ParsedPaneLine::Ignored));
    assert!(matches!(parse_pane_line(b"%1 @0 0 0 80 24"), ParsedPaneLine::Ignored));
    assert!(matches!(parse_pane_line(b"%1 @0 0 0 eighty 24 0"), ParsedPaneLine::Invalid));
}

#[test]
fn pane_listing_keeps_order_and_skips_blank_lines() {
    let out = b"%1 @0 0 0 80 12 1\n\n%2 @0 0 12 80 12 0\n";
    let panes = parse_pane_listing(out).expect("listing parses");
    assert_eq!(panes.len(), 2);
    assert_eq!(panes[0].id, "%1");
    assert!(panes[0].active);
    assert_eq!(panes[1].id, "%2");
    assert_eq!(panes[1].y, 12);
    assert!(!panes[1].active);
}

#[test]
fn pane_listing_fails_on_a_bad_number() {
    assert!(parse_pane_listing(b"%1 @0 0 0 80 bad 1\n").is_none());
}

#[test]
fn hooks_cover_the_pane_events() {
    assert_eq!(
        hook_command("/usr/local/bin/kitty-pane-bg"),
        "run-shell '/usr/local/bin/kitty-pane-bg set-background >/dev/null 2>&1'"
    );
    let names = hook_names();
    assert_eq!(names.len(), 11);
    assert_eq!(names[0], "after-split-window");
    assert_eq!(names[10], "after-select-pane");
}

#[test]
fn session_structures_nest() {
    let pane = TmuxPane {
        id: "%1".to_string(),
        window_id: "@0".to_string(),
        x: 0,
        y: 0,
        width: 80,
        height: 24,
        active: true,
    };
    let window = TmuxWindow { id: "@0".to_string(), name: "main".to_string(), panes: vec![pane] };
    let session = TmuxSession { name: "work".to_string(), windows: vec![window] };
    assert_eq!(session.windows[0].panes[0].width, 80);
    let geom = KittyGeometry { width: 800, height: 480 };
    assert_eq!(geom.width, 800);
}

// The malformed-response failure carries the parse diagnostic; it is a
// hard failure a caller constructs when the endpoint's output does not
// parse.
#[test]
fn malformed_response_carries_its_diagnostic() {
    let outcome = DispatchOutcome::Failed(DispatchFailure::MalformedResponse(
        "window list is not valid".to_string(),
    ));
    match outcome {
        DispatchOutcome::Failed(DispatchFailure::MalformedResponse(m)) => {
            assert_eq!(m, "window list is not valid");
        },
        _ => panic!("expected the malformed-response failure"),
    }
}

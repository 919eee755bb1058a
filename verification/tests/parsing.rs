use kitty_pane_bg::geometry::parse_terminal_size;
use kitty_pane_bg::introspect::{parse_parent_pid, signature_matches};
use kitty_pane_bg::resolver::{parse_session_token, resolve_client_pid};
use kitty_pane_bg::text::{
    bytes_eq, bytes_to_string, contains_bytes, fields, find_last, parse_u32, sanitize_id, tokens,
    u32_to_string,
};

#[test]
fn tokens_split_on_any_whitespace() {
    let toks = tokens(b"  a bb\tc\r\nd ");
    let toks: Vec<&[u8]> = toks.iter().map(|t| t.as_slice()).collect();
    assert_eq!(toks, vec![b"a" as &[u8], b"bb", b"c", b"d"]);
}

#[test]
fn tokens_of_empty_input() {
    assert_eq!(tokens(b"").len(), 0);
    assert_eq!(tokens(b"   \n\t").len(), 0);
}

#[test]
fn fields_keep_empties() {
    let f = fields(b"a,,b", b',');
    let f: Vec<&[u8]> = f.iter().map(|t| t.as_slice()).collect();
    assert_eq!(f, vec![b"a" as &[u8], b"", b"b"]);
    let g = fields(b"", b',');
    assert_eq!(g.len(), 1);
    assert_eq!(g[0].as_slice(), b"");
    let h = fields(b"x,", b',');
    assert_eq!(h.len(), 2);
    assert_eq!(h[1].as_slice(), b"");
}

#[test]
fn parse_u32_exact_values() {
    assert_eq!(parse_u32(b"0"), Some(0));
    assert_eq!(parse_u32(b"123"), Some(123));
    assert_eq!(parse_u32(b"042"), Some(42));
    assert_eq!(parse_u32(b"4294967295"), Some(u32::MAX));
}

#[test]
fn parse_u32_rejections() {
    assert_eq!(parse_u32(b""), None);
    assert_eq!(parse_u32(b"12a"), None);
    assert_eq!(parse_u32(b"-5"), None);
    assert_eq!(parse_u32(b"+5"), None);
    assert_eq!(parse_u32(b"4294967296"), None);
    assert_eq!(parse_u32(b"99999999999999999999"), None);
}

#[test]
fn contains_and_eq_helpers() {
    assert!(contains_bytes(b"xxkittyzz", b"kitty"));
    assert!(!contains_bytes(b"kitt", b"kitty"));
    assert!(contains_bytes(b"abc", b""));
    assert!(bytes_eq(b"abc", b"abc"));
    assert!(!bytes_eq(b"abc", b"abd"));
    assert_eq!(find_last(b"a(b)c)d", b')'), Some(5));
    assert_eq!(find_last(b"abc", b')'), None);
}

#[test]
fn signature_match_excludes_own_binary() {
    assert!(signature_matches(b"/usr/bin/kitty --single-instance"));
    assert!(!signature_matches(b"/usr/local/bin/kitty-pane-bg set-background"));
    assert!(!signature_matches(b"bash"));
    // The tool's own name embeds the target's name: still no match.
    assert!(!signature_matches(b"kitty-pane-bg"));
    // Both present: the self exclusion wins.
    assert!(!signature_matches(b"/opt/kitty /opt/kitty-pane-bg"));
}

#[test]
fn parent_pid_from_stat_record() {
    assert_eq!(parse_parent_pid(b"1234 (bash) S 77 1 2 3"), Some(77));
    // The executable name may hold spaces and parentheses.
    assert_eq!(parse_parent_pid(b"9 (a b) c) R 55 6"), Some(55));
    // A parent of one or zero counts as no parent.
    assert_eq!(parse_parent_pid(b"2 (init) S 1 0"), None);
    assert_eq!(parse_parent_pid(b"1 (init) S 0 0"), None);
    // Malformed records.
    assert_eq!(parse_parent_pid(b"no parens here"), None);
    assert_eq!(parse_parent_pid(b"5 (x)"), None);
    assert_eq!(parse_parent_pid(b"5 (x) S"), None);
    assert_eq!(parse_parent_pid(b"5 (x) S abc"), None);
}

#[test]
fn session_token_is_second_comma_field() {
    let t = parse_session_token(b"/tmp/tmux-1000/default,12345,0").unwrap();
    assert_eq!(t.as_slice(), b"12345");
    assert!(parse_session_token(b"no-comma-here").is_none());
    let t2 = parse_session_token(b"a,,c").unwrap();
    assert_eq!(t2.as_slice(), b"");
}

#[test]
fn client_resolution_prefers_exact_session() {
    let listing = b"100 $5\n555 7\n600 8\n";
    assert_eq!(resolve_client_pid(listing, b"7"), Some(555));
    assert_eq!(resolve_client_pid(listing, b"8"), Some(600));
    // No exact match: any parseable client is a best-effort fallback.
    assert_eq!(resolve_client_pid(listing, b"9"), Some(100));
    assert_eq!(resolve_client_pid(b"", b"7"), None);
    assert_eq!(resolve_client_pid(b"garbage\n", b"7"), None);
    // An unparseable exact match falls through to the fallback pass.
    assert_eq!(resolve_client_pid(b"abc 7\n42 9\n", b"7"), Some(42));
}

#[test]
fn terminal_size_is_rows_then_columns() {
    assert_eq!(parse_terminal_size(b"24 80\n"), Some((80, 24)));
    assert_eq!(parse_terminal_size(b"24"), None);
    assert_eq!(parse_terminal_size(b"24 80 25"), None);
    assert_eq!(parse_terminal_size(b"x y"), None);
}

#[test]
fn sanitize_keeps_markers_and_caps_length() {
    assert_eq!(sanitize_id("%1"), "%1");
    assert_eq!(sanitize_id("@3"), "@3");
    assert_eq!(sanitize_id("a!b c"), "abc");
    assert_eq!(sanitize_id("win-id_7"), "win-id_7");
    let long: String = std::iter::repeat('x').take(80).collect();
    assert_eq!(sanitize_id(&long).len(), 50);
}

#[test]
fn decimal_and_byte_conversions() {
    assert_eq!(u32_to_string(0), "0");
    assert_eq!(u32_to_string(1234), "1234");
    assert_eq!(u32_to_string(u32::MAX), "4294967295");
    assert_eq!(bytes_to_string(b"%12"), "%12");
}

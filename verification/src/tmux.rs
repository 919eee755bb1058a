//! Multiplexer pane structures, the parser for the pane-listing output,
//! and the hook commands that keep the background current.  Running the
//! queries is the embedding program's job; everything here is pure.

use vstd::prelude::*;
use crate::text::{
    bytes_eq, bytes_to_string, chars_of_bytes, fields, lemma_deep_index, parse_u32, spec_fields,
    spec_parse_u32, spec_tokens, tokens,
};

verus! {

/// One pane: its identifiers and its cell-grid rectangle.
pub struct TmuxPane {
    pub id: String,
    pub window_id: String,
    pub x: u32,
    pub y: u32,
    pub width: u32,
    pub height: u32,
    pub active: bool,
}

/// One window: its identifier, title and panes.
pub struct TmuxWindow {
    pub id: String,
    pub name: String,
    pub panes: Vec<TmuxPane>,
}

/// One session: its name and windows.
pub struct TmuxSession {
    pub name: String,
    pub windows: Vec<TmuxWindow>,
}

/// The fields a pane-listing line denotes, at the specification level.
pub ghost struct PaneFields {
    pub id: Seq<char>,
    pub window_id: Seq<char>,
    pub x: u32,
    pub y: u32,
    pub width: u32,
    pub height: u32,
    pub active: bool,
}

/// How one listing line parses: lines without exactly seven fields are
/// ignored, lines whose numeric fields do not parse are invalid (they
/// fail the whole listing), the rest denote a pane.
pub ghost enum PaneParse {
    Ignored,
    Invalid,
    Pane(PaneFields),
}

/// The listing format is `<pane id> <window id> <left> <top> <width>
/// <height> <active>`, whitespace-separated, with `1` marking the active
/// pane.
pub open spec fn spec_pane_line(line: Seq<u8>) -> PaneParse {
    let toks = spec_tokens(line);
    if toks.len() != 7 {
        PaneParse::Ignored
    } else {
        match (
            spec_parse_u32(toks[2]),
            spec_parse_u32(toks[3]),
            spec_parse_u32(toks[4]),
            spec_parse_u32(toks[5]),
        ) {
            (Some(x), Some(y), Some(w), Some(h)) => PaneParse::Pane(
                PaneFields {
                    id: chars_of_bytes(toks[0]),
                    window_id: chars_of_bytes(toks[1]),
                    x,
                    y,
                    width: w,
                    height: h,
                    active: toks[6] == seq![49u8],
                },
            ),
            _ => PaneParse::Invalid,
        }
    }
}

/// Whether an executable pane record carries exactly these fields.
pub open spec fn pane_matches(p: &TmuxPane, f: PaneFields) -> bool {
    &&& p.id@ == f.id
    &&& p.window_id@ == f.window_id
    &&& p.x == f.x
    &&& p.y == f.y
    &&& p.width == f.width
    &&& p.height == f.height
    &&& p.active == f.active
}

/// How one listing line parses, executably.
pub enum ParsedPaneLine {
    Ignored,
    Invalid,
    Pane(TmuxPane),
}

/// Parses one pane-listing line.
pub fn parse_pane_line(line: &[u8]) -> (r: ParsedPaneLine)
    ensures
        match r {
            ParsedPaneLine::Ignored => spec_pane_line(line@) is Ignored,
            ParsedPaneLine::Invalid => spec_pane_line(line@) is Invalid,
            ParsedPaneLine::Pane(p) => spec_pane_line(line@) matches PaneParse::Pane(f)
                && pane_matches(&p, f),
        },
{
    let toks = tokens(line);
    if toks.len() != 7 {
        return ParsedPaneLine::Ignored;
    }
    proof {
        lemma_deep_index(&toks, 0);
        lemma_deep_index(&toks, 1);
        lemma_deep_index(&toks, 2);
        lemma_deep_index(&toks, 3);
        lemma_deep_index(&toks, 4);
        lemma_deep_index(&toks, 5);
        lemma_deep_index(&toks, 6);
    }
    let x = parse_u32(toks[2].as_slice());
    let y = parse_u32(toks[3].as_slice());
    let w = parse_u32(toks[4].as_slice());
    let h = parse_u32(toks[5].as_slice());
    match (x, y, w, h) {
        (Some(x), Some(y), Some(w), Some(h)) => {
            let one: Vec<u8> = vec![49u8];
            proof {
                assert(one@ =~= seq![49u8]);
            }
            let active = bytes_eq(toks[6].as_slice(), one.as_slice());
            ParsedPaneLine::Pane(
                TmuxPane {
                    id: bytes_to_string(toks[0].as_slice()),
                    window_id: bytes_to_string(toks[1].as_slice()),
                    x,
                    y,
                    width: w,
                    height: h,
                    active,
                },
            )
        },
        _ => ParsedPaneLine::Invalid,
    }
}

/// The panes a listing denotes from line `i` on, or nothing when a line
/// is invalid.
pub open spec fn panes_from(lines: Seq<Seq<u8>>, i: int) -> Option<Seq<PaneFields>>
    decreases lines.len() - i,
{
    if i < 0 || i >= lines.len() {
        Some(Seq::empty())
    } else {
        match spec_pane_line(lines[i]) {
            PaneParse::Ignored => panes_from(lines, i + 1),
            PaneParse::Invalid => None,
            PaneParse::Pane(f) => match panes_from(lines, i + 1) {
                Some(rest) => Some(seq![f] + rest),
                None => None,
            },
        }
    }
}

/// The panes a whole raw listing denotes.
pub open spec fn spec_pane_listing(out: Seq<u8>) -> Option<Seq<PaneFields>> {
    panes_from(spec_fields(out, 10u8), 0)
}

pub open spec fn fields_of_pane(p: TmuxPane) -> PaneFields {
    PaneFields {
        id: p.id@,
        window_id: p.window_id@,
        x: p.x,
        y: p.y,
        width: p.width,
        height: p.height,
        active: p.active,
    }
}

/// Parses the raw pane-listing output into pane records, in listing
/// order; a line with seven fields whose numbers do not parse fails the
/// whole listing.
pub fn parse_pane_listing(out: &[u8]) -> (r: Option<Vec<TmuxPane>>)
    ensures
        match r {
            Some(v) => spec_pane_listing(out@) == Some(v@.map(|j: int, p: TmuxPane| fields_of_pane(p))),
            None => spec_pane_listing(out@) is None,
        },
{
    let lines = fields(out, 10u8);
    let ghost glines = spec_fields(out@, 10u8);
    let mut acc: Vec<TmuxPane> = Vec::new();
    let mut i: usize = 0;
    while i < lines.len()
        invariant
            i <= lines.len(),
            glines == spec_fields(out@, 10u8),
            lines.deep_view() == glines,
            panes_from(glines, i as int) matches Some(rest) ==> panes_from(glines, 0) == Some(
                acc@.map(|j: int, p: TmuxPane| fields_of_pane(p)) + rest,
            ),
            panes_from(glines, i as int) is None ==> panes_from(glines, 0) is None,
        decreases lines.len() - i,
    {
        proof {
            lemma_deep_index(&lines, i as int);
        }
        match parse_pane_line(lines[i].as_slice()) {
            ParsedPaneLine::Ignored => {},
            ParsedPaneLine::Invalid => {
                return None;
            },
            ParsedPaneLine::Pane(p) => {
                let ghost old_map = acc@.map(|j: int, q: TmuxPane| fields_of_pane(q));
                let ghost f = spec_pane_line(glines[i as int])->Pane_0;
                acc.push(p);
                proof {
                    assert(acc@.map(|j: int, q: TmuxPane| fields_of_pane(q)) =~= old_map.push(
                        fields_of_pane(p),
                    ));
                    assert(fields_of_pane(p) == f);
                    match panes_from(glines, i + 1) {
                        Some(rest) => {
                            assert(panes_from(glines, i as int) == Some(seq![f] + rest));
                            assert(old_map + (seq![f] + rest) =~= (old_map.push(f) + rest));
                        },
                        None => {},
                    }
                }
            },
        }
        i = i + 1;
    }
    proof {
        assert(panes_from(glines, i as int) == Some(Seq::<PaneFields>::empty()));
        assert(acc@.map(|j: int, p: TmuxPane| fields_of_pane(p)) + Seq::<PaneFields>::empty() =~= acc@.map(
            |j: int, p: TmuxPane| fields_of_pane(p),
        ));
    }
    Some(acc)
}

/// The hook command installed for every pane event: re-set the background
/// quietly.
pub open spec fn spec_hook_command(program_path: Seq<char>) -> Seq<char> {
    "run-shell '"@ + program_path + " set-background >/dev/null 2>&1'"@
}

/// Builds the hook command for this program.
pub fn hook_command(program_path: &str) -> (r: String)
    ensures
        r@ == spec_hook_command(program_path@),
{
    let mut s = String::from_str("run-shell '");
    s.append(program_path);
    s.append(" set-background >/dev/null 2>&1'");
    s
}

/// The pane, window, session and focus events that re-generate the
/// background.
pub open spec fn spec_hook_names() -> Seq<Seq<char>> {
    seq![
        "after-split-window"@,
        "pane-exited"@,
        "after-resize-pane"@,
        "window-layout-changed"@,
        "after-select-window"@,
        "after-new-window"@,
        "after-kill-window"@,
        "after-new-session"@,
        "session-window-changed"@,
        "client-session-changed"@,
        "after-select-pane"@,
    ]
}

/// The hook names to install, in order.
pub fn hook_names() -> (r: Vec<String>)
    ensures
        r.deep_view() == spec_hook_names(),
{
    let mut r: Vec<String> = Vec::new();
    r.push(String::from_str("after-split-window"));
    r.push(String::from_str("pane-exited"));
    r.push(String::from_str("after-resize-pane"));
    r.push(String::from_str("window-layout-changed"));
    r.push(String::from_str("after-select-window"));
    r.push(String::from_str("after-new-window"));
    r.push(String::from_str("after-kill-window"));
    r.push(String::from_str("after-new-session"));
    r.push(String::from_str("session-window-changed"));
    r.push(String::from_str("client-session-changed"));
    r.push(String::from_str("after-select-pane"));
    proof {
        assert(r.deep_view() =~= spec_hook_names());
    }
    r
}

} // verus!

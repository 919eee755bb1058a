//! Window geometry: the pixel rectangle reported by the terminal, and the
//! parser for the fallback terminal-size query.

use vstd::prelude::*;
use crate::text::{lemma_deep_index, parse_u32, spec_parse_u32, spec_tokens, tokens};

verus! {

/// The terminal window's pixel rectangle.
pub struct KittyGeometry {
    pub width: u32,
    pub height: u32,
}

/// What a terminal-size query's output denotes: two whitespace-separated
/// numbers, rows then columns, returned as columns then rows.
pub open spec fn spec_terminal_size(out: Seq<u8>) -> Option<(u32, u32)> {
    let toks = spec_tokens(out);
    if toks.len() == 2 {
        match (spec_parse_u32(toks[0]), spec_parse_u32(toks[1])) {
            (Some(rows), Some(cols)) => Some((cols, rows)),
            _ => None,
        }
    } else {
        None
    }
}

/// Parses the `rows columns` output of the terminal-size query into
/// `(columns, rows)`.
pub fn parse_terminal_size(out: &[u8]) -> (r: Option<(u32, u32)>)
    ensures
        r == spec_terminal_size(out@),
{
    let toks = tokens(out);
    if toks.len() != 2 {
        return None;
    }
    proof {
        lemma_deep_index(&toks, 0);
        lemma_deep_index(&toks, 1);
    }
    let rows = parse_u32(toks[0].as_slice());
    let cols = parse_u32(toks[1].as_slice());
    match (rows, cols) {
        (Some(rows), Some(cols)) => Some((cols, rows)),
        _ => None,
    }
}

} // verus!

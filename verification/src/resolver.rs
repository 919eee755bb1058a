//! Session client resolution: extracting the session token from the
//! multiplexer's environment descriptor and mapping it to the process
//! identifier of the client attached to that session.

use vstd::prelude::*;
use crate::text::{
    bytes_eq, fields, lemma_deep_index, parse_u32, spec_fields, spec_parse_u32, spec_tokens, tokens,
};

verus! {

/// The session token inside the multiplexer's environment descriptor,
/// which is comma-separated (`<socket path>,<server pid>,<session id>`):
/// the second comma-separated field, absent when the descriptor has fewer
/// than two fields.
pub open spec fn spec_session_token(tmux_env: Seq<u8>) -> Option<Seq<u8>> {
    let flds = spec_fields(tmux_env, 44u8);
    if flds.len() < 2 {
        None
    } else {
        Some(flds[1])
    }
}

/// Extracts the session token from the environment descriptor.
pub fn parse_session_token(tmux_env: &[u8]) -> (r: Option<Vec<u8>>)
    ensures
        match r {
            Some(t) => spec_session_token(tmux_env@) == Some(t@),
            None => spec_session_token(tmux_env@) is None,
        },
{
    let mut flds = fields(tmux_env, 44u8);
    if flds.len() < 2 {
        return None;
    }
    proof {
        lemma_deep_index(&flds, 1);
    }
    let t = flds.swap_remove(1);
    Some(t)
}

/// The client pid a listing line contributes when its session field equals
/// the token: lines are `<client pid> <session token>`.
pub open spec fn line_exact_pid(line: Seq<u8>, token: Seq<u8>) -> Option<u32> {
    let toks = spec_tokens(line);
    if toks.len() >= 2 && toks[1] == token {
        spec_parse_u32(toks[0])
    } else {
        None
    }
}

/// The client pid a listing line contributes regardless of its session.
pub open spec fn line_any_pid(line: Seq<u8>) -> Option<u32> {
    let toks = spec_tokens(line);
    if toks.len() >= 1 {
        spec_parse_u32(toks[0])
    } else {
        None
    }
}

/// The first exact session match among the lines from `i` on.
pub open spec fn exact_from(lines: Seq<Seq<u8>>, token: Seq<u8>, i: int) -> Option<u32>
    decreases lines.len() - i,
{
    if i < 0 || i >= lines.len() {
        None
    } else {
        match line_exact_pid(lines[i], token) {
            Some(p) => Some(p),
            None => exact_from(lines, token, i + 1),
        }
    }
}

/// The first parseable client pid among the lines from `i` on.
pub open spec fn any_from(lines: Seq<Seq<u8>>, i: int) -> Option<u32>
    decreases lines.len() - i,
{
    if i < 0 || i >= lines.len() {
        None
    } else {
        match line_any_pid(lines[i]) {
            Some(p) => Some(p),
            None => any_from(lines, i + 1),
        }
    }
}

/// Which client pid a raw `list-clients` listing resolves the token to:
/// the first line whose session field equals the token, or failing that any
/// line with a parseable client pid (attribution in multi-client sessions
/// is best effort), or none.
pub open spec fn spec_resolve_client(listing: Seq<u8>, token: Seq<u8>) -> Option<u32> {
    let lines = spec_fields(listing, 10u8);
    match exact_from(lines, token, 0) {
        Some(p) => Some(p),
        None => any_from(lines, 0),
    }
}

/// Resolves a session token to the attached client's process identifier.
pub fn resolve_client_pid(listing: &[u8], token: &[u8]) -> (r: Option<u32>)
    ensures
        r == spec_resolve_client(listing@, token@),
{
    let lines = fields(listing, 10u8);
    let ghost glines = spec_fields(listing@, 10u8);
    let mut i: usize = 0;
    while i < lines.len()
        invariant
            i <= lines.len(),
            glines == spec_fields(listing@, 10u8),
            lines.deep_view() == glines,
            exact_from(glines, token@, 0) == exact_from(glines, token@, i as int),
        decreases lines.len() - i,
    {
        proof {
            lemma_deep_index(&lines, i as int);
        }
        let toks = tokens(lines[i].as_slice());
        if toks.len() >= 2 {
            proof {
                lemma_deep_index(&toks, 0);
                lemma_deep_index(&toks, 1);
            }
            if bytes_eq(toks[1].as_slice(), token) {
                match parse_u32(toks[0].as_slice()) {
                    Some(p) => {
                        return Some(p);
                    },
                    None => {},
                }
            }
        }
        i = i + 1;
    }
    let mut j: usize = 0;
    while j < lines.len()
        invariant
            j <= lines.len(),
            glines == spec_fields(listing@, 10u8),
            lines.deep_view() == glines,
            exact_from(glines, token@, 0) is None,
            any_from(glines, 0) == any_from(glines, j as int),
        decreases lines.len() - j,
    {
        proof {
            lemma_deep_index(&lines, j as int);
        }
        let toks = tokens(lines[j].as_slice());
        if toks.len() >= 1 {
            proof {
                lemma_deep_index(&toks, 0);
            }
            match parse_u32(toks[0].as_slice()) {
                Some(p) => {
                    return Some(p);
                },
                None => {},
            }
        }
        j = j + 1;
    }
    None
}

} // verus!

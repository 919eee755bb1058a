//! Process introspection: deciding from a process's command line whether it
//! is the target terminal application, and reading the parent process
//! identifier out of the kernel's per-process `stat` record.

use vstd::prelude::*;
use crate::text::{
    contains_bytes, contains_seq, find_last, last_index_of, parse_u32, spec_parse_u32, spec_tokens,
    tokens,
};

verus! {

/// The substring that marks the target terminal application's command line.
pub open spec fn target_signature() -> Seq<u8> {
    seq![107u8, 105u8, 116u8, 116u8, 121u8]
}

/// This tool's own binary name, excluded from matching so that the tool
/// never takes itself for the terminal it is looking for.
pub open spec fn own_binary_name() -> Seq<u8> {
    seq![107u8, 105u8, 116u8, 116u8, 121u8, 45u8, 112u8, 97u8, 110u8, 101u8, 45u8, 98u8, 103u8]
}

/// A command line matches when it holds the target signature but not this
/// tool's own binary name.
pub open spec fn sig_present(cmd: Seq<u8>) -> bool {
    contains_seq(cmd, target_signature()) && !contains_seq(cmd, own_binary_name())
}

/// Decides whether a raw command line belongs to the target application.
pub fn signature_matches(cmdline: &[u8]) -> (r: bool)
    ensures
        r == sig_present(cmdline@),
{
    let sig: Vec<u8> = vec![107u8, 105u8, 116u8, 116u8, 121u8];
    let own: Vec<u8> = vec![
        107u8,
        105u8,
        116u8,
        116u8,
        121u8,
        45u8,
        112u8,
        97u8,
        110u8,
        101u8,
        45u8,
        98u8,
        103u8,
    ];
    proof {
        assert(sig@ =~= target_signature());
        assert(own@ =~= own_binary_name());
    }
    contains_bytes(cmdline, sig.as_slice()) && !contains_bytes(cmdline, own.as_slice())
}

/// The parent process identifier in a `stat` record: the second
/// whitespace-separated token after the last closing parenthesis (the
/// executable name may itself contain spaces or parentheses).  A parent of
/// one or zero means the tree root has been reached and counts as no parent.
pub open spec fn spec_parent_pid(stat: Seq<u8>) -> Option<u32> {
    let lp = last_index_of(stat, 41u8);
    if lp < 0 {
        None
    } else {
        let toks = spec_tokens(stat.skip(lp + 1));
        if toks.len() < 2 {
            None
        } else {
            match spec_parse_u32(toks[1]) {
                Some(p) => if p <= 1 {
                    None
                } else {
                    Some(p)
                },
                None => None,
            }
        }
    }
}

/// Reads the parent process identifier out of a raw `stat` record.
pub fn parse_parent_pid(stat: &[u8]) -> (r: Option<u32>)
    ensures
        r == spec_parent_pid(stat@),
{
    let lp = match find_last(stat, 41u8) {
        Some(i) => i,
        None => {
            return None;
        },
    };
    let n = stat.len();
    let after: &[u8] = vstd::slice::slice_subrange(stat, lp + 1, n);
    proof {
        assert(after@ =~= stat@.skip(lp + 1));
    }
    let toks = tokens(after);
    if toks.len() < 2 {
        return None;
    }
    let second: &Vec<u8> = &toks[1];
    proof {
        assert(second@ =~= toks.deep_view()[1]);
    }
    match parse_u32(second.as_slice()) {
        Some(p) => if p <= 1 {
            None
        } else {
            Some(p)
        },
        None => None,
    }
}

/// What one look at a live process yields: whether its command line matches
/// the target signature, and its parent, if any.  A process whose metadata
/// cannot be read (it may have exited) counts as a non-match without parent.
#[derive(Clone, Copy, Debug, PartialEq, Eq, Structural)]
pub struct ProcessMeta {
    pub matches_signature: bool,
    pub parent: Option<u32>,
}

/// The match verdict for an optional raw command line.
pub open spec fn spec_meta_matches(cmdline: Option<Seq<u8>>) -> bool {
    match cmdline {
        Some(c) => sig_present(c),
        None => false,
    }
}

/// The parent verdict for an optional raw `stat` record.
pub open spec fn spec_meta_parent(stat: Option<Seq<u8>>) -> Option<u32> {
    match stat {
        Some(s) => spec_parent_pid(s),
        None => None,
    }
}

/// Condenses the raw metadata of one process into the two verdicts the
/// discovery logic reads.
pub fn process_meta(cmdline: &Option<Vec<u8>>, stat: &Option<Vec<u8>>) -> (r: ProcessMeta)
    ensures
        r.matches_signature == spec_meta_matches(match *cmdline {
            Some(ref c) => Some(c@),
            None => None,
        }),
        r.parent == spec_meta_parent(match *stat {
            Some(ref s) => Some(s@),
            None => None,
        }),
{
    let matches_signature = match cmdline {
        Some(c) => signature_matches(c.as_slice()),
        None => false,
    };
    let parent = match stat {
        Some(s) => parse_parent_pid(s.as_slice()),
        None => None,
    };
    ProcessMeta { matches_signature, parent }
}

} // verus!

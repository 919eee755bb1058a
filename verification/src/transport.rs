//! Transport plumbing that is pure computation: the primary transport's
//! argument list, and the escape sequences of the two fallback transports,
//! whose payload is the base64 encoding of the image bytes.

use vstd::prelude::*;
use crate::dispatch::CommandRequest;

verus! {

/// The base64 form of a byte sequence, as the padded standard alphabet
/// produces it.
pub uninterp spec fn b64_of(data: Seq<u8>) -> Seq<char>;

/// Relies on base64's `Engine::encode` with the `STANDARD` engine: the
/// output is a function of the input bytes alone — four characters for
/// every group of up to three input bytes, padded.  The length bound keeps
/// the engine's output-size computation representable, past which it
/// panics.
#[verifier::external_body]
fn b64_encode(data: &[u8]) -> (r: String)
    requires
        data@.len() * 4 <= usize::MAX,
    ensures
        r@ == b64_of(data@),
        r@.len() == 4 * ((data@.len() + 2) / 3),
{
    base64::Engine::encode(&base64::engine::general_purpose::STANDARD, data)
}

/// The escape sequence that sets the background image, wrapped for the
/// multiplexer's pass-through.
pub open spec fn spec_tmux_set_sequence(payload: Seq<char>) -> Seq<char> {
    "\\ePtmux;\\e\\e]20;"@ + payload + "\\e\\e\\\\\\e\\\\"@
}

/// The escape sequence that sets the background image, written straight
/// to the terminal.
pub open spec fn spec_direct_set_sequence(payload: Seq<char>) -> Seq<char> {
    "\\e]20;"@ + payload + "\\e\\\\"@
}

/// Builds the set-background escape sequence for the image bytes, with
/// the pass-through wrapping when running inside the multiplexer.
pub fn set_background_sequence(data: &[u8], via_multiplexer: bool) -> (r: String)
    requires
        data@.len() * 4 <= usize::MAX,
    ensures
        r@ == if via_multiplexer {
            spec_tmux_set_sequence(b64_of(data@))
        } else {
            spec_direct_set_sequence(b64_of(data@))
        },
{
    let payload = b64_encode(data);
    if via_multiplexer {
        let mut s = String::from_str("\\ePtmux;\\e\\e]20;");
        s.append(payload.as_str());
        s.append("\\e\\e\\\\\\e\\\\");
        s
    } else {
        let mut s = String::from_str("\\e]20;");
        s.append(payload.as_str());
        s.append("\\e\\\\");
        s
    }
}

/// Builds the clear-background escape sequence: the set sequence with an
/// empty payload.
pub fn clear_background_sequence(via_multiplexer: bool) -> (r: String)
    ensures
        r@ == if via_multiplexer {
            spec_tmux_set_sequence(Seq::<char>::empty())
        } else {
            spec_direct_set_sequence(Seq::<char>::empty())
        },
{
    if via_multiplexer {
        let mut s = String::from_str("\\ePtmux;\\e\\e]20;");
        s.append("\\e\\e\\\\\\e\\\\");
        proof {
            assert(s@ =~= spec_tmux_set_sequence(Seq::<char>::empty()));
        }
        s
    } else {
        let mut s = String::from_str("\\e]20;");
        s.append("\\e\\\\");
        proof {
            assert(s@ =~= spec_direct_set_sequence(Seq::<char>::empty()));
        }
        s
    }
}

/// The shell command the fallback transports run to emit an escape
/// sequence.
pub open spec fn spec_printf_command(escape: Seq<char>) -> Seq<char> {
    "printf '"@ + escape + "'"@
}

/// Builds the shell command that prints the escape sequence.
pub fn printf_command(escape: &str) -> (r: String)
    ensures
        r@ == spec_printf_command(escape@),
{
    let mut s = String::from_str("printf '");
    s.append(escape);
    s.append("'");
    s
}

/// The primary transport's argument list: the remote-control marker, the
/// socket address, then the command's own arguments.
pub open spec fn spec_primary_args(socket: Seq<char>, args: Seq<Seq<char>>) -> Seq<Seq<char>> {
    seq!["@"@, "--to"@, socket] + args
}

/// Builds the argument list for one primary-transport attempt against
/// `socket`.
pub fn primary_transport_args(socket: &str, cmd: &CommandRequest) -> (r: Vec<String>)
    ensures
        r.deep_view() == spec_primary_args(socket@, cmd.args.deep_view()),
{
    let mut r: Vec<String> = Vec::new();
    r.push(String::from_str("@"));
    r.push(String::from_str("--to"));
    r.push(String::from_str(socket));
    proof {
        assert(r.deep_view() =~= seq!["@"@, "--to"@, socket@]);
    }
    let mut i: usize = 0;
    while i < cmd.args.len()
        invariant
            i <= cmd.args@.len(),
            r.deep_view() == seq!["@"@, "--to"@, socket@] + cmd.args.deep_view().take(i as int),
        decreases cmd.args.len() - i,
    {
        let ghost old_r = r.deep_view();
        r.push(cmd.args[i].clone());
        proof {
            assert(cmd.args@[i as int].deep_view() == cmd.args.deep_view()[i as int]);
            assert(r.deep_view() =~= old_r.push(cmd.args.deep_view()[i as int]));
            assert(r.deep_view() =~= seq!["@"@, "--to"@, socket@] + cmd.args.deep_view().take(
                i + 1,
            ));
        }
        i = i + 1;
    }
    proof {
        assert(cmd.args.deep_view().take(i as int) =~= cmd.args.deep_view());
        assert(r.deep_view() =~= spec_primary_args(socket@, cmd.args.deep_view()));
    }
    r
}

} // verus!

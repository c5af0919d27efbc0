//! The pass-through session's wire format.
//!
//! A pass-through invocation is marshaled into a single payload string: the
//! arguments joined with single spaces, a working-directory marker token, the
//! working directory, and a trailing path separator. The payload is sent as
//! one UTF-8 write; the response is an unframed byte stream, terminated by
//! the peer closing the connection, and is decoded back to text verbatim.

use vstd::prelude::*;
use vstd::utf8::*;

verus! {

/// Errors of the socket exchange with the daemon. Connecting can fail when no
/// daemon is listening; a transport fault while writing or while reading the
/// unframed response stream is fatal for the invocation.
#[derive(Clone, Copy, Debug, PartialEq, Eq, Structural)]
pub enum SessionError {
    ConnectFailed,
    WriteFailed,
    ReadFailed,
}

/// The marker token inserted between the joined arguments and the working
/// directory.
pub open spec fn cwd_marker() -> Seq<char> {
    seq![' ', '-', '-', 'c', 'w', 'd', ' ']
}

/// The arguments joined with single spaces.
pub open spec fn spec_join_args(args: Seq<Seq<char>>) -> Seq<char>
    decreases args.len(),
{
    if args.len() == 0 {
        Seq::empty()
    } else if args.len() == 1 {
        args[0]
    } else {
        spec_join_args(args.drop_last()) + seq![' '] + args.last()
    }
}

/// The payload for an invocation: joined arguments, the marker, the working
/// directory and a trailing separator — with a single space substituted if
/// that string were empty, so a transmission is never zero-length.
pub open spec fn spec_payload(args: Seq<Seq<char>>, cwd: Seq<char>) -> Seq<char> {
    let full = spec_join_args(args) + cwd_marker() + cwd + seq!['/'];
    if full.len() == 0 {
        seq![' ']
    } else {
        full
    }
}

/// The payload is never empty: an empty invocation still carries at least the
/// marker and separator, and the single-space fallback guards the rest.
pub proof fn lemma_payload_nonempty(args: Seq<Seq<char>>, cwd: Seq<char>)
    ensures
        spec_payload(args, cwd).len() > 0,
{
}

/// Builds the payload string transmitted to the daemon.
pub fn build_payload(args: &Vec<String>, cwd: &str) -> (p: String)
    ensures
        p@ == spec_payload(args.deep_view(), cwd@),
        p@.len() > 0,
{
    let ghost dv = args.deep_view();
    let mut joined = String::new();
    let n = args.len();
    let mut i: usize = 0;
    while i < n
        invariant
            0 <= i <= n == args.len(),
            dv == args.deep_view(),
            dv.len() == n,
            joined@ == spec_join_args(dv.subrange(0, i as int)),
        decreases n - i,
    {
        if i > 0 {
            joined.append(" ");
            proof {
                reveal_strlit(" ");
            }
        }
        joined.append(args[i].as_str());
        proof {
            let prefix = dv.subrange(0, i as int);
            let next = dv.subrange(0, i as int + 1);
            if i == 0 {
                assert(next.len() == 1 && next[0] == dv[0]);
            } else {
                assert(next.drop_last() =~= prefix);
                assert(" "@ =~= seq![' ']);
            }
            assert(joined@ =~= spec_join_args(next));
        }
        i += 1;
    }
    proof {
        assert(dv.subrange(0, n as int) =~= dv);
    }
    joined.append(" --cwd ");
    joined.append(cwd);
    joined.append("/");
    proof {
        reveal_strlit(" --cwd ");
        reveal_strlit("/");
        assert(" --cwd "@ =~= cwd_marker());
        assert("/"@ =~= seq!['/']);
        assert(joined@ =~= spec_join_args(dv) + cwd_marker() + cwd@ + seq!['/']);
    }
    if joined.as_str().is_empty() {
        proof {
            reveal_strlit(" ");
            assert(" "@ =~= seq![' ']);
        }
        " ".to_owned()
    } else {
        joined
    }
}

/// The UTF-8 bytes of the payload: exactly what is written to the socket in
/// one transmission.
pub fn payload_bytes(p: &str) -> (b: Vec<u8>)
    ensures
        b@ == encode_utf8(p@),
{
    p.as_bytes_vec()
}

/// Relies on String::from_utf8: it succeeds exactly when the input is valid
/// UTF-8, and the returned string's bytes are the input bytes.
#[verifier::external_body]
fn string_from_utf8_bytes(bytes: Vec<u8>) -> (r: Option<String>)
    ensures
        r is Some <==> valid_utf8(bytes@),
        r matches Some(s) ==> encode_utf8(s@) == bytes@,
{
    String::from_utf8(bytes).ok()
}

/// Decodes the daemon's accumulated response bytes into the text printed for
/// the user. The stream carries UTF-8; anything else is a read failure.
pub fn decode_response(bytes: Vec<u8>) -> (r: Result<String, SessionError>)
    ensures
        r is Ok <==> valid_utf8(bytes@),
        r matches Ok(s) ==> s@ == decode_utf8(bytes@),
        r is Err ==> r == Err::<String, SessionError>(SessionError::ReadFailed),
{
    let ghost b = bytes@;
    match string_from_utf8_bytes(bytes) {
        Some(s) => {
            proof {
                encode_utf8_decode_utf8(s@);
            }
            Ok(s)
        },
        None => Err(SessionError::ReadFailed),
    }
}

/// Round trip with an echoing daemon: a response byte stream equal to the
/// transmitted payload bytes is valid UTF-8 and decodes to exactly the
/// payload string.
pub proof fn lemma_echo_round_trip(payload: Seq<char>, response: Seq<u8>)
    requires
        response == encode_utf8(payload),
    ensures
        valid_utf8(response),
        decode_utf8(response) == payload,
{
    encode_utf8_valid_utf8(payload);
    encode_utf8_decode_utf8(payload);
}

} // verus!

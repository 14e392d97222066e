//! Liveness probing: the first bytes of a fresh connection decide whether it
//! is a plain health check (answered immediately with a fixed response and
//! closed) or the start of an upgrade handshake.

use vstd::prelude::*;
use vstd::string::StringExecFns;

verus! {

/// The six ASCII bytes `GET / ` that open a plain liveness request.
pub open spec fn liveness_prefix() -> Seq<u8> {
    seq![71u8, 69u8, 84u8, 32u8, 47u8, 32u8]
}

/// The fixed response served to a liveness probe: status 200, empty body,
/// connection closed.
pub open spec fn liveness_response_text() -> Seq<char> {
    "HTTP/1.1 200 OK\r\nContent-Length: 0\r\nConnection: close\r\n\r\n"@
}

/// True exactly when the peeked bytes are the liveness opener `GET / `.
pub fn is_liveness_probe(peeked: &[u8]) -> (r: bool)
    ensures
        r == (peeked@ == liveness_prefix()),
{
    if peeked.len() != 6 {
        return false;
    }
    let r = peeked[0] == 71 && peeked[1] == 69 && peeked[2] == 84 && peeked[3] == 32
        && peeked[4] == 47 && peeked[5] == 32;
    proof {
        if r {
            assert(peeked@ =~= liveness_prefix());
        }
    }
    r
}

/// The exact bytes, as text, that answer a liveness probe.
pub fn liveness_response() -> (r: String)
    ensures
        r@ == liveness_response_text(),
{
    String::from_str("HTTP/1.1 200 OK\r\nContent-Length: 0\r\nConnection: close\r\n\r\n")
}

} // verus!

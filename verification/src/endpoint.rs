//! The roles of a WebTransport endpoint, and what a server decides of the
//! application protocol that the TLS handshake settled on.
use crate::WTError;
use vstd::prelude::*;

verus! {

/// An endpoint not yet bound to a role.
pub struct Init;

/// A server endpoint, accepting sessions.
pub struct Server;

/// A client endpoint, opening sessions.
pub struct Client;

/// The ALPN identifier of HTTP/3, `h3`.
pub open spec fn alpn_h3() -> Seq<u8> {
    seq![0x68u8, 0x33u8]
}

/// What accepting a connection decides of its negotiated ALPN protocol:
/// only HTTP/3 is served.
pub fn check_alpn(alpn: &[u8]) -> (r: Result<(), WTError>)
    ensures
        r is Ok <==> alpn@ == alpn_h3(),
        r is Err ==> r == Err::<(), WTError>(WTError::ProtocolError("Invalid ALPN : {alpn}")),
{
    if alpn.len() == 2 && alpn[0] == 0x68 && alpn[1] == 0x33 {
        assert(alpn@ =~= alpn_h3());
        Ok(())
    } else {
        Err(WTError::ProtocolError("Invalid ALPN : {alpn}"))
    }
}

} // verus!

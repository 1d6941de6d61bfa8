//! The WebTransport session handshake on top of the extended CONNECT
//! exchange: the client asks for the `webtransport` protocol, the server
//! checks it.
use crate::coding::VarInt;
use crate::h3::connect::Request;
use crate::h3::H3Error;
use crate::h3::qpack::Headers;
use crate::quic::{quic_send_stream_id, send_stream_id};
use crate::WTError;
use vstd::prelude::*;

verus! {

/// An established WebTransport session request.
pub struct Connect {
    inner: Request,
}

/// Whether header fields are those of a WebTransport session request:
/// method `CONNECT`, protocol `webtransport`.
pub open spec fn is_session_request(h: Map<Seq<char>, Seq<char>>) -> bool {
    &&& h.contains_key(":method"@)
    &&& h[":method"@] == "CONNECT"@
    &&& h.contains_key(":protocol"@)
    &&& h[":protocol"@] == "webtransport"@
}

/// The header fields of the request that opens a session.
pub open spec fn session_request_fields() -> Map<Seq<char>, Seq<char>> {
    Map::<Seq<char>, Seq<char>>::empty().insert("origin"@, "https://googlechrome.github.io"@).insert(
        ":protocol"@,
        "webtransport"@,
    ).insert(":method"@, "CONNECT"@).insert(":scheme"@, "https"@).insert(
        "sec-webtransport-http3-draft02"@,
        "1"@,
    )
}

/// The request that opens a session carries exactly five fields:
/// `origin: https://googlechrome.github.io`, `:protocol: webtransport`,
/// `:method: CONNECT`, `:scheme: https` and
/// `sec-webtransport-http3-draft02: 1`.
pub proof fn lemma_session_request_fields()
    ensures
        session_request_fields().dom() == set![
            "origin"@,
            ":protocol"@,
            ":method"@,
            ":scheme"@,
            "sec-webtransport-http3-draft02"@,
        ],
        session_request_fields()["origin"@] == "https://googlechrome.github.io"@,
        session_request_fields()[":protocol"@] == "webtransport"@,
        session_request_fields()[":method"@] == "CONNECT"@,
        session_request_fields()[":scheme"@] == "https"@,
        session_request_fields()["sec-webtransport-http3-draft02"@] == "1"@,
{
    reveal_strlit("origin");
    reveal_strlit(":protocol");
    reveal_strlit(":method");
    reveal_strlit(":scheme");
    reveal_strlit("sec-webtransport-http3-draft02");
    assert("origin"@[0] == 'o' && ":protocol"@[0] == ':' && ":method"@[0] == ':' && ":scheme"@[0]
        == ':' && "sec-webtransport-http3-draft02"@[0] == 's');
    assert(":protocol"@[1] == 'p' && ":method"@[1] == 'm' && ":scheme"@[1] == 's');
    assert("origin"@ != ":protocol"@ && "origin"@ != ":method"@ && "origin"@ != ":scheme"@
        && "origin"@ != "sec-webtransport-http3-draft02"@);
    assert(":protocol"@ != ":method"@ && ":protocol"@ != ":scheme"@ && ":protocol"@
        != "sec-webtransport-http3-draft02"@);
    assert(":method"@ != ":scheme"@ && ":method"@ != "sec-webtransport-http3-draft02"@);
    assert(":scheme"@ != "sec-webtransport-http3-draft02"@);
    assert(session_request_fields().dom() =~= set![
        "origin"@,
        ":protocol"@,
        ":method"@,
        ":scheme"@,
        "sec-webtransport-http3-draft02"@,
    ]);
}

impl View for Connect {
    type V = Map<Seq<char>, Seq<char>>;

    /// The header fields of the request.
    closed spec fn view(&self) -> Map<Seq<char>, Seq<char>> {
        self.inner.headers@
    }
}

impl Connect {
    #[verifier::type_invariant]
    closed spec fn wf(self) -> bool {
        is_session_request(self.inner.headers@)
    }

    /// The id of the request stream, which is the session id.
    pub closed spec fn request_stream_id(&self) -> u64 {
        send_stream_id(self.inner.writer)
    }

    /// The session set up by the CONNECT request `inner`, whose header fields
    /// must ask for a WebTransport session: method `CONNECT` (else the
    /// HTTP/3 protocol error for the method), then protocol `webtransport`
    /// (else the session's protocol error).
    pub fn new(inner: Request) -> (r: Result<Connect, WTError>)
        ensures
            r is Ok <==> is_session_request(inner.parts().2@),
            r matches Ok(c) ==> c@ == inner.parts().2@ && c.request_stream_id() == send_stream_id(
                inner.parts().0,
            ),
            !(inner.parts().2@.contains_key(":method"@) && inner.parts().2@[":method"@]
                == "CONNECT"@) ==> r matches Err(
                WTError::H3Error(H3Error::ProtocolError(":method invalid in H3 Header")),
            ),
            (inner.parts().2@.contains_key(":method"@) && inner.parts().2@[":method"@]
                == "CONNECT"@) && !is_session_request(inner.parts().2@) ==> r matches Err(
                WTError::ProtocolError(":protocol invalid in H3 Header"),
            ),
    {
        proof {
            inner.lemma_parts();
        }
        if let Err(e) = Request::check_request_headers(&inner.headers) {
            return Err(WTError::H3Error(e));
        }
        Connect::check_request(&inner.headers)?;
        Ok(Connect { inner })
    }

    /// What accepting a session decides of the request's header fields: the
    /// protocol must be `webtransport`.
    pub fn check_request(headers: &Headers) -> (r: Result<(), WTError>)
        ensures
            r is Ok <==> (headers@.contains_key(":protocol"@) && headers@[":protocol"@]
                == "webtransport"@),
            r is Err ==> r == Err::<(), WTError>(
                WTError::ProtocolError(":protocol invalid in H3 Header"),
            ),
    {
        if !headers.has_value(":protocol", "webtransport") {
            return Err(WTError::ProtocolError(":protocol invalid in H3 Header"));
        }
        Ok(())
    }

    /// The header fields of the request that opens a session.
    pub fn request_headers() -> (r: Headers)
        ensures
            r@ == session_request_fields(),
    {
        let mut headers = Headers::default();
        headers.set("origin", "https://googlechrome.github.io");
        headers.set(":protocol", "webtransport");
        headers.set(":method", "CONNECT");
        headers.set(":scheme", "https");
        headers.set("sec-webtransport-http3-draft02", "1");
        headers
    }

    /// The session id: the id of the request stream.
    pub fn session_id(&self) -> (r: VarInt)
        ensures
            r@ == self.request_stream_id(),
    {
        VarInt::from_bounded(quic_send_stream_id(&self.inner.writer))
    }

    /// The header fields of the request; they always ask for a WebTransport
    /// session.
    pub fn headers(&self) -> (r: &Headers)
        ensures
            r@ == self@,
            is_session_request(r@),
    {
        proof {
            use_type_invariant(self);
            self.inner.lemma_parts();
        }
        &self.inner.headers
    }
}

} // verus!

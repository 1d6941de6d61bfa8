//! The extended CONNECT exchange (RFC 9220) that opens a WebTransport
//! session over HTTP/3: what each side checks of the HEADERS frame it
//! receives, and the header fields it sends.
use crate::h3::frame::Frame;
use crate::h3::qpack::Headers;
use crate::h3::H3Error;
use vstd::prelude::*;

verus! {

/// An extended CONNECT request: the request stream, and the header fields
/// that the client sent.
#[derive(Debug)]
pub struct Request {
    pub writer: quinn::SendStream,
    pub(crate) reader: quinn::RecvStream,
    pub headers: Headers,
}

impl Request {
    /// The request's writing half, reading half and header fields.
    pub closed spec fn parts(self) -> (quinn::SendStream, quinn::RecvStream, Headers) {
        (self.writer, self.reader, self.headers)
    }

    pub(crate) proof fn lemma_parts(self)
        ensures
            self.parts() == (self.writer, self.reader, self.headers),
    {
    }

    /// A request on the stream pair `writer`/`reader`, with `headers`.
    pub fn new(writer: quinn::SendStream, reader: quinn::RecvStream, headers: Headers) -> (r:
        Request)
        ensures
            r.parts() == (writer, reader, headers),
    {
        Request { writer, reader, headers }
    }

    /// What accepting a request decides of the first frame on the request
    /// stream: it must be a HEADERS frame.
    pub fn check_request_frame(ftype: &Frame) -> (r: Result<(), H3Error>)
        ensures
            r is Ok <==> ftype.0@ == 0x01,
            r is Err ==> r == Err::<(), H3Error>(H3Error::ProtocolError("Incorrect Ftype")),
    {
        if ftype.0.into_inner() != Frame::headers().0.into_inner() {
            return Err(H3Error::ProtocolError("Incorrect Ftype"));
        }
        Ok(())
    }

    /// What accepting a request decides of its header fields: the method
    /// must be `CONNECT`.
    pub fn check_request_headers(headers: &Headers) -> (r: Result<(), H3Error>)
        ensures
            r is Ok <==> (headers@.contains_key(":method"@) && headers@[":method"@]
                == "CONNECT"@),
            r is Err ==> r == Err::<(), H3Error>(
                H3Error::ProtocolError(":method invalid in H3 Header"),
            ),
    {
        if !headers.has_value(":method", "CONNECT") {
            return Err(H3Error::ProtocolError(":method invalid in H3 Header"));
        }
        Ok(())
    }

    /// What opening a request decides of the first frame of the answer: it
    /// must be a HEADERS frame.
    pub fn check_response_frame(ftype: &Frame) -> (r: Result<(), H3Error>)
        ensures
            r is Ok <==> ftype.0@ == 0x01,
            r is Err ==> r == Err::<(), H3Error>(
                H3Error::ProtocolError("Received Unknown Header on Connect Open"),
            ),
    {
        if ftype.0.into_inner() != Frame::headers().0.into_inner() {
            return Err(H3Error::ProtocolError("Received Unknown Header on Connect Open"));
        }
        Ok(())
    }

    /// What opening a request decides of the answer's header fields: the
    /// status must be `200` and the WebTransport draft `draft02`.
    pub fn check_response_headers(resp: &Headers) -> (r: Result<(), H3Error>)
        ensures
            r is Ok <==> (resp@.contains_key(":status"@) && resp@[":status"@] == "200"@
                && resp@.contains_key("sec-webtransport-http3-draft"@)
                && resp@["sec-webtransport-http3-draft"@] == "draft02"@),
            r is Err ==> r == Err::<(), H3Error>(H3Error::ConnectError),
    {
        if !resp.has_value(":status", "200") {
            return Err(H3Error::ConnectError);
        }
        if !resp.has_value("sec-webtransport-http3-draft", "draft02") {
            return Err(H3Error::ConnectError);
        }
        Ok(())
    }

    /// The header fields of the answer that accepts a request: status `200`
    /// and WebTransport draft `draft02`.
    pub fn response_headers() -> (r: Headers)
        ensures
            r@ == Map::<Seq<char>, Seq<char>>::empty().insert(":status"@, "200"@).insert(
                "sec-webtransport-http3-draft"@,
                "draft02"@,
            ),
    {
        let mut headers = Headers::default();
        headers.set(":status", "200");
        headers.set("sec-webtransport-http3-draft", "draft02");
        headers
    }
}

} // verus!

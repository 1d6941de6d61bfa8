//! What a WebTransport session decides about the streams the peer opens.
//!
//! Every incoming stream starts with its type (unidirectional) or signal
//! value (bidirectional), then the session id. Streams of another session
//! are refused; among the rest, WebTransport streams are handed to the
//! application, and HTTP/3 streams (QPACK encoder and decoder, push) are
//! held open so that dropping them does not close the connection.
use crate::coding::VarInt;
use crate::h3::streams::{BiStream, UniStream};
use crate::WTError;
use vstd::prelude::*;

verus! {

/// What to do with an accepted unidirectional stream, by its type.
#[derive(PartialEq, Eq, Debug, Clone, Copy)]
pub enum UniDisposition {
    /// A WebTransport stream: hand it to the application.
    Deliver,
    /// The peer's QPACK encoder stream: hold it.
    HoldQpackEncoder,
    /// The peer's QPACK decoder stream: hold it.
    HoldQpackDecoder,
    /// A push stream: hold it.
    HoldPush,
    /// Any other type: warn and drop it.
    Unknown,
}

/// The disposition of a unidirectional stream of type `stype`.
pub open spec fn uni_disposition_of(stype: u64) -> UniDisposition {
    if stype == 0x54 {
        UniDisposition::Deliver
    } else if stype == 0x02 {
        UniDisposition::HoldQpackEncoder
    } else if stype == 0x03 {
        UniDisposition::HoldQpackDecoder
    } else if stype == 0x01 {
        UniDisposition::HoldPush
    } else {
        UniDisposition::Unknown
    }
}

/// Only WebTransport streams (type 0x54) are handed to the application; the
/// QPACK encoder (0x02), QPACK decoder (0x03) and push (0x01) streams are
/// held; every other type, the control stream (0x00) and grease types
/// included, is unknown.
pub proof fn lemma_uni_disposition_by_type(t: u64)
    ensures
        uni_disposition_of(t) == UniDisposition::Deliver <==> t == 0x54,
        t == 0x02 ==> uni_disposition_of(t) == UniDisposition::HoldQpackEncoder,
        t == 0x03 ==> uni_disposition_of(t) == UniDisposition::HoldQpackDecoder,
        t == 0x01 ==> uni_disposition_of(t) == UniDisposition::HoldPush,
        t != 0x54 && t != 0x01 && t != 0x02 && t != 0x03 ==> uni_disposition_of(t)
            == UniDisposition::Unknown,
{
}

/// What accepting a unidirectional stream decides of its type.
pub fn uni_disposition(stype: &UniStream) -> (r: UniDisposition)
    ensures
        r == uni_disposition_of(stype.0@),
{
    let t = stype.0.into_inner();
    if t == UniStream::webtransport().0.into_inner() {
        UniDisposition::Deliver
    } else if t == UniStream::qpack_encoder().0.into_inner() {
        UniDisposition::HoldQpackEncoder
    } else if t == UniStream::qpack_decoder().0.into_inner() {
        UniDisposition::HoldQpackDecoder
    } else if t == UniStream::push().0.into_inner() {
        UniDisposition::HoldPush
    } else {
        UniDisposition::Unknown
    }
}

/// What accepting a bidirectional stream decides of its signal value:
/// only WebTransport streams are handed on, others are skipped.
pub fn bi_is_webtransport(stype: &BiStream) -> (r: bool)
    ensures
        r == (stype.0@ == 0x41),
{
    stype.0.into_inner() == BiStream::webtransport().0.into_inner()
}

/// What accepting a unidirectional stream decides of the session id it
/// carries: it must be the session's.
pub fn check_uni_session(sid: VarInt, id: VarInt) -> (r: Result<(), WTError>)
    ensures
        r is Ok <==> sid@ == id@,
        r is Err ==> r == Err::<(), WTError>(
            WTError::ProtocolError("UniStream Accept : Session ID mismatch"),
        ),
{
    if sid.into_inner() != id.into_inner() {
        return Err(WTError::ProtocolError("UniStream Accept : Session ID mismatch"));
    }
    Ok(())
}

/// What accepting a bidirectional stream decides of the session id it
/// carries: it must be the session's.
pub fn check_bi_session(sid: VarInt, id: VarInt) -> (r: Result<(), WTError>)
    ensures
        r is Ok <==> sid@ == id@,
        r is Err ==> r == Err::<(), WTError>(
            WTError::ProtocolError("BiStream Accept : Session ID mismatch"),
        ),
{
    if sid.into_inner() != id.into_inner() {
        return Err(WTError::ProtocolError("BiStream Accept : Session ID mismatch"));
    }
    Ok(())
}

} // verus!

//! WebTransport over HTTP/3 on QUIC: varint coding, HTTP/3 frames and
//! settings, the extended CONNECT handshake, and the decisions a session
//! makes about the streams it accepts.
pub mod buffers;
pub mod coding;
pub mod conn;
pub mod connect;
pub mod endpoint;
pub mod h3;
pub mod quic;
pub mod settings;
pub mod text;

use crate::coding::CodingError;
use crate::h3::H3Error;
use vstd::prelude::*;

verus! {

/// Errors of a WebTransport session.
#[derive(Debug)]
pub enum WTError {
    H3Error(H3Error),
    CodingError(CodingError),
    WebTransportNotSupported,
    ProtocolError(&'static str),
    ConnectionError(quinn::ConnectionError),
    ConnectError(quinn::ConnectError),
    SendDatagramError(quinn::SendDatagramError),
    ReadError(quinn::ReadError),
    WriteError(quinn::WriteError),
    AcceptError(&'static str),
}

} // verus!

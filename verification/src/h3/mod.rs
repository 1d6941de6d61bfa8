//! HTTP/3 as WebTransport needs it: frames, settings, stream types and the
//! extended CONNECT handshake.
pub mod connect;
pub mod frame;
pub mod qpack;
pub mod settings;
pub mod streams;
pub mod unistream;


use crate::coding::CodingError;
use vstd::prelude::*;

verus! {

/// The ALPN protocol identifier of HTTP/3.
pub const ALPN_H3: [u8; 2] = [0x68, 0x33];

/// Errors of the HTTP/3 layer.
#[derive(Debug)]
pub enum H3Error {
    SettingsError,
    CodingError(CodingError),
    ConnectionError(quinn::ConnectionError),
    ProtocolError(&'static str),
    ReadExactError(quinn::ReadExactError),
    WriteErrir(quinn::WriteError),
    QpackDeocdeError(qpack::DecodeError),
    ConnectError,
}

} // verus!

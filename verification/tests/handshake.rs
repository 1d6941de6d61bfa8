use wt_rs::coding::VarInt;
use wt_rs::conn::{bi_is_webtransport, check_bi_session, check_uni_session, uni_disposition, UniDisposition};
use wt_rs::connect::Connect;
use wt_rs::endpoint::check_alpn;
use wt_rs::h3::connect::Request;
use wt_rs::h3::frame::Frame;
use wt_rs::h3::qpack::Headers;
use wt_rs::h3::streams::{BiStream, UniStream};
use wt_rs::h3::{H3Error, ALPN_H3};
use wt_rs::WTError;

#[test]
fn headers_set_and_get() {
    let mut h = Headers::default();
    assert!(h.get(":method").is_none());
    h.set(":method", "GET");
    h.set(":method", "CONNECT");
    h.set(":path", "/");
    assert_eq!(h.get(":method").unwrap(), "CONNECT");
    assert_eq!(h.get(":path").unwrap(), "/");
    assert!(h.has_value(":method", "CONNECT"));
    assert!(!h.has_value(":method", "GET"));
}

#[test]
fn connect_request_checks() {
    assert!(Request::check_request_frame(&Frame::headers()).is_ok());
    assert!(matches!(
        Request::check_request_frame(&Frame::data()),
        Err(H3Error::ProtocolError("Incorrect Ftype"))
    ));
    let mut h = Headers::new();
    assert!(matches!(
        Request::check_request_headers(&h),
        Err(H3Error::ProtocolError(":method invalid in H3 Header"))
    ));
    h.set(":method", "CONNECT");
    assert!(Request::check_request_headers(&h).is_ok());
}

#[test]
fn connect_response_checks() {
    assert!(matches!(
        Request::check_response_frame(&Frame::settings()),
        Err(H3Error::ProtocolError("Received Unknown Header on Connect Open"))
    ));
    let ok = Request::response_headers();
    assert_eq!(ok.get(":status").unwrap(), "200");
    assert_eq!(ok.get("sec-webtransport-http3-draft").unwrap(), "draft02");
    assert!(Request::check_response_headers(&ok).is_ok());
    let mut bad = Headers::new();
    bad.set(":status", "404");
    bad.set("sec-webtransport-http3-draft", "draft02");
    assert!(matches!(Request::check_response_headers(&bad), Err(H3Error::ConnectError)));
    let mut old = Headers::new();
    old.set(":status", "200");
    assert!(matches!(Request::check_response_headers(&old), Err(H3Error::ConnectError)));
}

#[test]
fn session_request_headers() {
    let h = Connect::request_headers();
    assert_eq!(h.get(":protocol").unwrap(), "webtransport");
    assert_eq!(h.get(":method").unwrap(), "CONNECT");
    assert_eq!(h.get(":scheme").unwrap(), "https");
    assert_eq!(h.get("origin").unwrap(), "https://googlechrome.github.io");
    assert_eq!(h.get("sec-webtransport-http3-draft02").unwrap(), "1");
    assert!(Connect::check_request(&h).is_ok());
    assert!(Request::check_request_headers(&h).is_ok());
    let mut other = Headers::new();
    other.set(":protocol", "websocket");
    assert!(matches!(
        Connect::check_request(&other),
        Err(WTError::ProtocolError(":protocol invalid in H3 Header"))
    ));
}

#[test]
fn stream_dispositions() {
    assert_eq!(uni_disposition(&UniStream::webtransport()), UniDisposition::Deliver);
    assert_eq!(uni_disposition(&UniStream::qpack_encoder()), UniDisposition::HoldQpackEncoder);
    assert_eq!(uni_disposition(&UniStream::qpack_decoder()), UniDisposition::HoldQpackDecoder);
    assert_eq!(uni_disposition(&UniStream::push()), UniDisposition::HoldPush);
    assert_eq!(uni_disposition(&UniStream::control()), UniDisposition::Unknown);
    assert!(bi_is_webtransport(&BiStream::webtransport()));
    assert!(!bi_is_webtransport(&BiStream(VarInt::from_u32(0x54))));
}

#[test]
fn session_id_checks() {
    let id = VarInt::from_u32(4);
    assert!(check_uni_session(VarInt::from_u32(4), id).is_ok());
    assert!(matches!(
        check_uni_session(VarInt::from_u32(8), id),
        Err(WTError::ProtocolError("UniStream Accept : Session ID mismatch"))
    ));
    assert!(check_bi_session(VarInt::from_u32(4), id).is_ok());
    assert!(matches!(
        check_bi_session(VarInt::from_u32(0), id),
        Err(WTError::ProtocolError("BiStream Accept : Session ID mismatch"))
    ));
}

#[test]
fn alpn_check() {
    assert!(check_alpn(&ALPN_H3).is_ok());
    assert!(check_alpn(b"h3").is_ok());
    assert!(matches!(check_alpn(b"h2"), Err(WTError::ProtocolError(_))));
    assert!(check_alpn(b"h3-29").is_err());
    assert!(check_alpn(b"").is_err());
}

#[test]
fn headers_field_list() {
    let mut h = Headers::new();
    h.set("a", "1");
    h.set("b", "2");
    h.set("a", "3");
    let f = h.fields();
    assert_eq!(f.len(), 2);
    assert!(f.contains(&("a".to_string(), "3".to_string())));
    assert!(f.contains(&("b".to_string(), "2".to_string())));
}

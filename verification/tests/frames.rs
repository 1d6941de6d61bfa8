use bytes::{Bytes, BytesMut};
use wt_rs::coding::{VarInt, VarIntExt};
use wt_rs::h3::frame::Frame;
use wt_rs::h3::streams::{BiStream, UniStream};
use wt_rs::h3::unistream;
use wt_rs::h3::H3Error;

#[test]
fn frame_encode_layout() {
    let mut b = BytesMut::new();
    Frame::headers().encode(&mut b, Bytes::from(vec![1, 2, 3]));
    assert_eq!(&b[..], &[0x01, 0x03, 1, 2, 3]);

    let mut b = BytesMut::from(&[0xaa][..]);
    Frame::settings().encode(&mut b, Bytes::from(vec![7; 70]));
    assert_eq!(&b[..4], &[0xaa, 0x04, 0x40, 70]);
    assert_eq!(b.len(), 4 + 70);
}

#[test]
fn frame_reads_back() {
    let mut b = BytesMut::new();
    Frame(VarInt::from_u32(0x1234)).encode(&mut b, Bytes::from(vec![9, 8]));
    let mut r = b.freeze();
    assert_eq!(r.read_varint().unwrap().into_inner(), 0x1234);
    assert_eq!(r.read_varint().unwrap().into_inner(), 2);
    assert_eq!(&r[..], &[9, 8]);
}

#[test]
fn frame_grease() {
    assert!(!Frame::data().is_grease());
    assert!(!Frame::max_push_id().is_grease());
    assert!(!Frame(VarInt::from_u32(0x20)).is_grease());
    assert!(Frame(VarInt::from_u32(0x21)).is_grease());
    assert!(Frame(VarInt::from_u32(0x40)).is_grease());
    assert!(!Frame(VarInt::from_u32(0x41)).is_grease());
    assert!(Frame(VarInt::from_u32(0x21 + 0x1f * 1000)).is_grease());
}

#[test]
fn frame_debug_names() {
    assert_eq!(Frame::data().debug_name(), "Frame::DATA");
    assert_eq!(Frame::headers().debug_name(), "Frame::HEADERS");
    assert_eq!(Frame::cancel_push().debug_name(), "Frame::CANCEL_PUSH");
    assert_eq!(Frame::settings().debug_name(), "Frame::SETTINGS");
    assert_eq!(Frame::push_promise().debug_name(), "Frame::PUSH_PROMISE");
    assert_eq!(Frame::goaway().debug_name(), "Frame::GOAWAY");
    assert_eq!(Frame::max_push_id().debug_name(), "Frame::MAX_PUSH_ID");
    assert_eq!(Frame(VarInt::from_u32(0x02)).debug_name(), "Frame::UNKNOWN");
}

#[test]
fn stream_type_encoding() {
    let mut b = BytesMut::new();
    UniStream::control().encode(&mut b);
    UniStream::webtransport().encode(&mut b);
    BiStream::webtransport().encode(&mut b);
    UniStream(VarInt::from_u32(0x4000)).encode(&mut b);
    assert_eq!(&b[..], &[0x00, 0x40, 0x54, 0x40, 0x41, 0x80, 0x00, 0x40, 0x00]);

    let mut c = BytesMut::new();
    unistream::UniStream::webtransport().encode(&mut c);
    unistream::UniStream::control().encode(&mut c);
    assert_eq!(&c[..], &[0x40, 0x54, 0x00]);
}

#[test]
fn bistream_header_check() {
    assert!(BiStream::webtransport().check_header().is_ok());
    match BiStream(VarInt::from_u32(0x54)).check_header() {
        Err(H3Error::ProtocolError(msg)) => assert_eq!(msg, "Recevied Unknown Header on BiStream"),
        _ => panic!("expected a protocol error"),
    }
}

use bytes::{Bytes, BytesMut};
use wt_rs::coding::{CodingError, VarInt, VarIntMutExt};
use wt_rs::h3::frame::Frame;
use wt_rs::h3::settings::{Setting, Settings};
use wt_rs::h3::streams::UniStream;
use wt_rs::h3::H3Error;
use wt_rs::settings::{check_peer_settings, local_settings};
use wt_rs::WTError;

fn payload(pairs: &[(u64, u64)]) -> Bytes {
    let mut b = BytesMut::new();
    for (k, v) in pairs {
        b.write_varint(*k);
        b.write_varint(*v);
    }
    b.freeze()
}

#[test]
fn new_settings_hold_grease() {
    let s = Settings::new();
    assert_eq!(s.len(), 1);
    let (len, bytes) = s.encode();
    assert_eq!(len, 6);
    assert_eq!(&bytes[..], &[0x40, 0x40, 0x80, 0x00, 0x64, 0x29]);
}

#[test]
fn settings_roundtrip() {
    let mut s = Settings::new();
    s.enable_webtransport(7);
    let (len, bytes) = s.encode();
    let mut data = bytes.clone();
    let d = Settings::decode(&mut data, len).unwrap();
    assert!(data.is_empty());
    assert_eq!(d.len(), 7);
    assert_eq!(d.debug_string().len(), s.debug_string().len());
    assert!(d.supports_webtransport());
    let (len2, bytes2) = d.encode();
    assert_eq!(len2, len);
    assert_eq!(bytes2.len(), bytes.len());
}

#[test]
fn decode_keeps_last_value_and_low_bits() {
    let mut data = payload(&[(0x8, 1), (0x8, 0), (0x33, (1 << 32) + 5)]);
    let total = data.len();
    let s = Settings::decode(&mut data, total).unwrap();
    assert_eq!(s.len(), 2);
    let text = s.debug_string();
    assert!(text.contains("ENABLE_CONNECT - 0"));
    assert!(text.contains("ENABLE_DATAGRAM - 5"));
}

#[test]
fn decode_splits_off_len_bytes() {
    let mut data = payload(&[(0x6, 100)]);
    let mut extra = BytesMut::from(&data[..]);
    extra.extend_from_slice(&[0xee, 0xff]);
    data = extra.freeze();
    let s = Settings::decode(&mut data, 3).unwrap();
    assert_eq!(s.len(), 1);
    assert_eq!(&data[..], &[0xee, 0xff]);
}

#[test]
fn decode_cut_varint_is_unexpected_end() {
    let mut data = Bytes::from(vec![0x08, 0x40]);
    match Settings::decode(&mut data, 2) {
        Err(H3Error::CodingError(CodingError::UnexpectedEnd)) => {}
        _ => panic!("expected UnexpectedEnd"),
    }
    assert!(data.is_empty());
}

#[test]
fn decode_identifier_without_value_is_unexpected_end() {
    let mut data = Bytes::from_static(&[0x08]);
    match Settings::decode(&mut data, 1) {
        Err(H3Error::CodingError(CodingError::UnexpectedEnd)) => {}
        _ => panic!("expected UnexpectedEnd"),
    }
    let mut data = Bytes::from(vec![0x08, 0x01, 0x33, 0x77]);
    match Settings::decode(&mut data, 3) {
        Err(H3Error::CodingError(CodingError::UnexpectedEnd)) => {}
        _ => panic!("expected UnexpectedEnd"),
    }
    assert_eq!(&data[..], &[0x77]);
    let mut empty = Bytes::new();
    assert_eq!(Settings::decode(&mut empty, 0).unwrap().len(), 0);
}

#[test]
fn supports_webtransport_order() {
    let mut data = payload(&[(0x2b603742, 0), (0xc671706a, 5)]);
    let n = data.len();
    let s = Settings::decode(&mut data, n).unwrap();
    assert!(!s.supports_webtransport());

    let mut data = payload(&[(0xc671706a, 1)]);
    let n = data.len();
    let s = Settings::decode(&mut data, n).unwrap();
    assert!(s.supports_webtransport());

    let mut data = payload(&[(0x2b603743, 0)]);
    let n = data.len();
    let s = Settings::decode(&mut data, n).unwrap();
    assert!(!s.supports_webtransport());

    assert!(!Settings::default().supports_webtransport());
    let mut e = Settings::default();
    e.enable_webtransport(0);
    assert!(e.supports_webtransport());
}

#[test]
fn settings_frame_checks() {
    assert!(Settings::check_control_stream(&UniStream::control()).is_ok());
    assert!(matches!(
        Settings::check_control_stream(&UniStream::push()),
        Err(H3Error::SettingsError)
    ));
    let mut data = payload(&[(0x8, 1)]);
    let n = data.len();
    assert!(matches!(
        Settings::from_frame(&Frame::headers(), n, &mut data),
        Err(H3Error::SettingsError)
    ));
    assert_eq!(data.len(), n);
    let s = Settings::from_frame(&Frame::settings(), n, &mut data).unwrap();
    assert_eq!(s.len(), 1);
}

#[test]
fn setting_debug_names() {
    assert_eq!(Setting::enable_connect_protocol().debug_name(), "ENABLE_CONNECT");
    assert_eq!(Setting::webtransport_max_sessions().debug_name(), "MAX_WEBTRANSPORT_SESSIONS");
    assert_eq!(Setting::qpack_max_table_capacity().debug_name(), "QPACK_MAX_TABLE_CAPACITY");
    assert_eq!(Setting::max_field_section_size().debug_name(), "MAX_FIELD_SECTION_SIZE");
    assert_eq!(Setting::qpack_blocked_streams().debug_name(), "QPACK_BLOCKED_STREAMS");
    assert_eq!(Setting::enable_datagram().debug_name(), "ENABLE_DATAGRAM");
    assert_eq!(Setting::enable_datagram_deprecated().debug_name(), "ENABLE_DATAGRAM_DEPRECATED");
    assert_eq!(
        Setting::webtransport_enable_deprecated().debug_name(),
        "WEBTRANSPORT_ENABLE_DEPRECATED"
    );
    assert_eq!(
        Setting::webtransport_max_sessions_deprecated().debug_name(),
        "WEBTRANSPORT_MAX_SESSIONS_DEPRECATED"
    );
    assert_eq!(Setting(VarInt::from_u32(0x40)).debug_name(), "GREASE [0x40]");
    assert_eq!(Setting(VarInt::from_u32(0x1234)).debug_name(), "0x1234");
    assert!(Setting(VarInt::from_u32(0x5f)).is_grease());
}

#[test]
fn settings_debug_string() {
    assert_eq!(Settings::new().debug_string(), "[  GREASE [0x40] - 25641]");
    assert_eq!(Settings::default().debug_string(), "[]");
}

#[test]
fn local_settings_and_peer_check() {
    let s = local_settings();
    assert_eq!(s.len(), 6);
    assert!(check_peer_settings(&s).is_ok());
    assert!(matches!(
        check_peer_settings(&Settings::new()),
        Err(WTError::WebTransportNotSupported)
    ));
}

#[test]
fn setting_names_in_hex() {
    assert_eq!(Setting(VarInt::from_u32(0xabcdef)).debug_name(), "0xabcdef");
    assert_eq!(Setting(VarInt::from_u32(0x0)).debug_name(), "0x0");
    assert_eq!(Setting(VarInt::from_u32(0x21 + 0x1f * 16)).debug_name(), "GREASE [0x211]");
    let mut data = payload(&[(0x1234, 0), (0x1234, 1234567890)]);
    let n = data.len();
    let s = Settings::decode(&mut data, n).unwrap();
    assert_eq!(s.debug_string(), "[  0x1234 - 1234567890]");
}

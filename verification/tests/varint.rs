use bytes::{Bytes, BytesMut};
use wt_rs::coding::{varint_encoded_len, varint_from_array, CodingError, VarInt, VarIntExt, VarIntMutExt};

fn encoded(x: u64) -> Vec<u8> {
    let mut b = BytesMut::new();
    b.write_varint(x);
    b.to_vec()
}

#[test]
fn write_varint_matches_rfc9000_examples() {
    assert_eq!(encoded(37), vec![0x25]);
    assert_eq!(encoded(15293), vec![0x7b, 0xbd]);
    assert_eq!(encoded(494878333), vec![0x9d, 0x7f, 0x3e, 0x7d]);
    assert_eq!(
        encoded(151288809941952652),
        vec![0xc2, 0x19, 0x7c, 0x5e, 0xff, 0x14, 0xe8, 0x8c]
    );
}

#[test]
fn write_varint_size_boundaries() {
    assert_eq!(encoded(0), vec![0x00]);
    assert_eq!(encoded(63).len(), 1);
    assert_eq!(encoded(64), vec![0x40, 0x40]);
    assert_eq!(encoded(16383).len(), 2);
    assert_eq!(encoded(16384), vec![0x80, 0x00, 0x40, 0x00]);
    assert_eq!(encoded((1 << 30) - 1).len(), 4);
    assert_eq!(encoded(1 << 30).len(), 8);
    assert_eq!(encoded((1 << 62) - 1), vec![0xff; 8]);
}

#[test]
fn read_varint_matches_rfc9000_examples() {
    let mut b = Bytes::from(vec![
        0xc2, 0x19, 0x7c, 0x5e, 0xff, 0x14, 0xe8, 0x8c, 0x9d, 0x7f, 0x3e, 0x7d, 0x7b, 0xbd, 0x25,
    ]);
    assert_eq!(b.read_varint().unwrap().into_inner(), 151288809941952652);
    assert_eq!(b.read_varint().unwrap().into_inner(), 494878333);
    assert_eq!(b.read_varint().unwrap().into_inner(), 15293);
    assert_eq!(b.read_varint().unwrap().into_inner(), 37);
    assert!(b.is_empty());
}

#[test]
fn read_varint_accepts_longer_encodings() {
    let mut b = Bytes::from(vec![0x40, 0x25, 0x99]);
    assert_eq!(b.read_varint().unwrap().into_inner(), 37);
    assert_eq!(&b[..], &[0x99]);
}

#[test]
fn read_varint_short_buffer_is_unexpected_end() {
    let mut b = Bytes::from(vec![0x80, 0x01, 0x02]);
    assert_eq!(b.read_varint(), Err(CodingError::UnexpectedEnd));
    assert_eq!(&b[..], &[0x01, 0x02]);
    let mut c = Bytes::from(vec![0x40]);
    assert_eq!(c.read_varint(), Err(CodingError::UnexpectedEnd));
    assert!(c.is_empty());
}

#[test]
fn varint_roundtrip_values() {
    for x in [0u64, 1, 63, 64, 300, 16383, 16384, 1 << 29, (1 << 30) - 1, 1 << 30, 1 << 40, (1 << 62) - 1] {
        let mut b = Bytes::from(encoded(x));
        assert_eq!(b.read_varint().unwrap().into_inner(), x);
        assert!(b.is_empty());
    }
}

#[test]
fn stream_decoding_pieces() {
    assert_eq!(varint_encoded_len(0x25), 1);
    assert_eq!(varint_encoded_len(0x7b), 2);
    assert_eq!(varint_encoded_len(0x9d), 4);
    assert_eq!(varint_encoded_len(0xc2), 8);
    let buf = [0x9d, 0x7f, 0x3e, 0x7d, 0, 0, 0, 0];
    assert_eq!(varint_from_array(&buf).unwrap().into_inner(), 494878333);
    let buf = [0xc2, 0x19, 0x7c, 0x5e, 0xff, 0x14, 0xe8, 0x8c];
    assert_eq!(varint_from_array(&buf).unwrap().into_inner(), 151288809941952652);
    let buf = [0x25, 0xff, 0xff, 0xff, 0xff, 0xff, 0xff, 0xff];
    assert_eq!(varint_from_array(&buf).unwrap().into_inner(), 37);
}

#[test]
fn varint_bounds() {
    assert_eq!(VarInt::from_u64((1 << 62) - 1).unwrap().into_inner(), (1 << 62) - 1);
    assert!(VarInt::from_u64(1 << 62).is_err());
    assert!(VarInt::from_u64(u64::MAX).is_err());
    assert_eq!(VarInt::from_u32(u32::MAX).into_inner(), u32::MAX as u64);
}

#[test]
fn read_varint_empty_buffer_is_unexpected_end() {
    let mut b = Bytes::new();
    assert_eq!(b.read_varint(), Err(CodingError::UnexpectedEnd));
    assert!(b.is_empty());
}

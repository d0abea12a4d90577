use bytes::BytesMut;
use tower_abci::buf::buffer_len;
use tower_abci::codec::{frame_fits, Decode, Encode};
use tower_abci::varint::peek_varint;

fn buf(bytes: &[u8]) -> BytesMut {
    BytesMut::from(bytes)
}

/// One decode whose body, if any, is accepted.
fn next_frame(dec: &mut Decode<()>, src: &mut BytesMut) -> Option<BytesMut> {
    let body = dec.decode(src);
    if body.is_some() {
        dec.body_accepted();
    }
    body
}

#[test]
fn varint_single_byte() {
    assert_eq!(peek_varint(&[0x05, 0xff]), Some((1, 5)));
    assert_eq!(peek_varint(&[0x00]), Some((1, 0)));
}

#[test]
fn varint_multi_byte() {
    assert_eq!(peek_varint(&[0xac, 0x02]), Some((2, 300)));
    assert_eq!(peek_varint(&[0xac, 0x02, 0x07]), Some((2, 300)));
}

#[test]
fn varint_incomplete() {
    assert_eq!(peek_varint(&[]), None);
    assert_eq!(peek_varint(&[0x80]), None);
    assert_eq!(peek_varint(&[0xff, 0xff]), None);
}

#[test]
fn varint_max_and_overflow() {
    let max = [0xff, 0xff, 0xff, 0xff, 0xff, 0xff, 0xff, 0xff, 0xff, 0x01];
    assert_eq!(peek_varint(&max), Some((10, u64::MAX)));
    let over = [0xff, 0xff, 0xff, 0xff, 0xff, 0xff, 0xff, 0xff, 0xff, 0x02];
    assert_eq!(peek_varint(&over), None);
    let long = [0x80; 11];
    assert_eq!(peek_varint(&long), None);
}

#[test]
fn varint_non_canonical_is_read() {
    assert_eq!(peek_varint(&[0x80, 0x00]), Some((2, 0)));
}

#[test]
fn encode_small_frame() {
    let mut enc: Encode<()> = Encode::default();
    let mut dst = buf(&[9]);
    enc.encode(buf(&[1, 2, 3]), &mut dst);
    assert_eq!(&dst[..], &[9, 3, 1, 2, 3]);
}

#[test]
fn encode_long_frame_length() {
    let mut enc: Encode<()> = Encode::default();
    let mut dst = BytesMut::new();
    let body = vec![7u8; 300];
    enc.encode(buf(&body), &mut dst);
    assert_eq!(dst.len(), 302);
    assert_eq!(&dst[..2], &[0xac, 0x02]);
    assert_eq!(&dst[2..], &body[..]);
}

#[test]
fn encode_empty_frame() {
    let mut enc: Encode<()> = Encode::default();
    let mut dst = BytesMut::new();
    enc.encode(BytesMut::new(), &mut dst);
    assert_eq!(&dst[..], &[0]);
}

#[test]
fn decode_whole_frame() {
    let mut dec: Decode<()> = Decode::default();
    let mut src = buf(&[3, 1, 2, 3, 42]);
    let body = next_frame(&mut dec, &mut src).expect("a whole frame");
    assert_eq!(&body[..], &[1, 2, 3]);
    assert_eq!(&src[..], &[42]);
}

#[test]
fn decode_waits_for_length() {
    let mut dec: Decode<()> = Decode::default();
    let mut src = buf(&[0xac]);
    assert!(next_frame(&mut dec, &mut src).is_none());
    assert_eq!(&src[..], &[0xac]);
}

#[test]
fn decode_waits_for_body_then_resumes() {
    let mut dec: Decode<()> = Decode::default();
    let mut src = buf(&[4, 1, 2]);
    assert!(next_frame(&mut dec, &mut src).is_none());
    assert_eq!(&src[..], &[1, 2]);
    src.extend_from_slice(&[3, 4, 5]);
    let body = next_frame(&mut dec, &mut src).expect("the rest of the frame arrived");
    assert_eq!(&body[..], &[1, 2, 3, 4]);
    assert_eq!(&src[..], &[5]);
}

#[test]
fn decode_empty_body() {
    let mut dec: Decode<()> = Decode::default();
    let mut src = buf(&[0, 0]);
    let body = next_frame(&mut dec, &mut src).expect("an empty frame");
    assert!(body.is_empty());
    assert_eq!(&src[..], &[0]);
}

#[test]
fn decode_overlong_length_waits() {
    let mut dec: Decode<()> = Decode::default();
    let mut src = buf(&[0x80; 12]);
    assert!(next_frame(&mut dec, &mut src).is_none());
    assert_eq!(src.len(), 12);
}

#[test]
fn roundtrip_several_frames() {
    let mut enc: Encode<()> = Encode::default();
    let mut dec: Decode<()> = Decode::default();
    let mut wire = BytesMut::new();
    let bodies: Vec<Vec<u8>> = vec![vec![], vec![1], vec![5u8; 200], vec![9, 8, 7]];
    for b in &bodies {
        enc.encode(buf(b), &mut wire);
    }
    for b in &bodies {
        let got = next_frame(&mut dec, &mut wire).expect("frame");
        assert_eq!(&got[..], &b[..]);
    }
    assert!(wire.is_empty());
    assert!(next_frame(&mut dec, &mut wire).is_none());
}

#[test]
fn roundtrip_byte_by_byte() {
    let mut enc: Encode<()> = Encode::default();
    let mut dec: Decode<()> = Decode::default();
    let mut wire = BytesMut::new();
    let body = vec![3u8; 130];
    enc.encode(buf(&body), &mut wire);
    let mut src = BytesMut::new();
    let mut got = None;
    for byte in wire.iter() {
        assert!(got.is_none());
        src.extend_from_slice(&[*byte]);
        got = next_frame(&mut dec, &mut src);
    }
    assert_eq!(&got.expect("frame")[..], &body[..]);
}

#[test]
fn body_not_accepted_keeps_body_state() {
    let mut dec: Decode<()> = Decode::default();
    let mut src = buf(&[2, 1, 2, 3, 4, 5]);
    let first = dec.decode(&mut src).expect("a whole frame");
    assert_eq!(&first[..], &[1, 2]);
    // The body was not accepted: the next two bytes are taken as a body.
    let second = dec.decode(&mut src).expect("as many bytes again");
    assert_eq!(&second[..], &[3, 4]);
    dec.body_accepted();
    // The last byte is read as the length of a frame still to come.
    assert!(dec.decode(&mut src).is_none());
    assert!(src.is_empty());
}

#[test]
fn lengths_and_frame_fit() {
    let body = buf(&[1, 2, 3]);
    let dst = buf(&[0; 7]);
    assert_eq!(buffer_len(&body), 3);
    assert_eq!(buffer_len(&dst), 7);
    assert!(frame_fits(&body, &dst));
}

#[test]
fn chunking_does_not_change_frames() {
    let mut enc: Encode<()> = Encode::default();
    let bodies: Vec<Vec<u8>> = vec![vec![1, 2], vec![], vec![9u8; 140], vec![4]];
    let mut wire = BytesMut::new();
    for b in &bodies {
        enc.encode(buf(b), &mut wire);
    }
    for cut in [1usize, 2, 3, 7, 50, 1000] {
        let mut dec: Decode<()> = Decode::default();
        let mut src = BytesMut::new();
        let mut got: Vec<Vec<u8>> = Vec::new();
        for chunk in wire.chunks(cut) {
            src.extend_from_slice(chunk);
            while let Some(body) = next_frame(&mut dec, &mut src) {
                got.push(body.to_vec());
            }
        }
        assert_eq!(got, bodies);
        assert!(src.is_empty());
    }
}

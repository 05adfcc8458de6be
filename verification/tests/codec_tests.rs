use rpc_dispatch::codec::decode_u32_exact;
use rpc_dispatch::codec::encode_u32;
use rpc_dispatch::codec::encode_wire_error;
use rpc_dispatch::wire::RoutingKey;
use rpc_dispatch::wire::WireError;

#[test]
fn varint_bytes_match_postcard() {
    let values: [u32; 9] = [0, 1, 127, 128, 255, 300, 16384, 0x12345678, u32::MAX];
    for v in values {
        let ours = encode_u32(v);
        let theirs: Vec<u8> = postcard::to_stdvec(&v).unwrap();
        assert_eq!(ours, theirs, "encoding of {v}");
    }
}

#[test]
fn varint_decodes_postcard_bytes() {
    let values: [u32; 9] = [0, 1, 127, 128, 255, 300, 16384, 0x12345678, u32::MAX];
    for v in values {
        let bytes: Vec<u8> = postcard::to_stdvec(&v).unwrap();
        assert_eq!(decode_u32_exact(&bytes), Some(v));
        let back: u32 = postcard::from_bytes(&encode_u32(v)).unwrap();
        assert_eq!(back, v);
    }
}

#[test]
fn varint_round_trip() {
    let values: [u32; 9] = [0, 1, 127, 128, 255, 300, 16384, 0x12345678, u32::MAX];
    for v in values {
        assert_eq!(decode_u32_exact(&encode_u32(v)), Some(v));
    }
}

#[test]
fn varint_exact_lengths() {
    assert_eq!(encode_u32(0), vec![0x00]);
    assert_eq!(encode_u32(127), vec![0x7F]);
    assert_eq!(encode_u32(128), vec![0x80, 0x01]);
    assert_eq!(encode_u32(300), vec![0xAC, 0x02]);
    assert_eq!(encode_u32(u32::MAX), vec![0xFF, 0xFF, 0xFF, 0xFF, 0x0F]);
}

#[test]
fn decode_rejects_bad_payloads() {
    // Empty input: a value needs at least one byte.
    assert_eq!(decode_u32_exact(&vec![]), None);
    // Truncated: a continuation byte with nothing after it.
    assert_eq!(decode_u32_exact(&vec![0x80]), None);
    // Non-canonical: a padded encoding of zero.
    assert_eq!(decode_u32_exact(&vec![0x80, 0x00]), None);
    // Trailing garbage after a complete value.
    assert_eq!(decode_u32_exact(&vec![0x01, 0x02]), None);
    // Out of the 32-bit range.
    assert_eq!(decode_u32_exact(&vec![0xFF, 0xFF, 0xFF, 0xFF, 0x10]), None);
}

#[test]
fn wire_error_encodings() {
    assert_eq!(encode_wire_error(&WireError::DeserFailed), vec![0x00]);
    assert_eq!(encode_wire_error(&WireError::SerFailed), vec![0x01]);
    assert_eq!(
        encode_wire_error(&WireError::UnknownKey([0xDE, 0xAD, 0xBE, 0xEF])),
        vec![0x02, 0xDE, 0xAD, 0xBE, 0xEF]
    );
    assert_eq!(encode_wire_error(&WireError::FailedToSpawn), vec![0x03]);
}

#[test]
fn routing_key_bytes_are_little_endian() {
    let k = RoutingKey { value: 0x04030201 };
    assert_eq!(k.to_bytes(), [0x01, 0x02, 0x03, 0x04]);
    let all = RoutingKey { value: 0xFFFFFFFF };
    assert_eq!(all.to_bytes(), [0xFF, 0xFF, 0xFF, 0xFF]);
}

#[test]
fn unit_requests_have_empty_wire_image() {
    // The fieldless request encodes to nothing, as the reference codec's
    // unit value does.
    let unit_bytes: Vec<u8> = postcard::to_stdvec(&()).unwrap();
    assert!(unit_bytes.is_empty());
}

use socks5_relay::endpoint::{
    decode_request_endpoint, decode_udp_endpoint, encode_request_endpoint, encode_udp_header,
    AddressError, Endpoint,
};

fn samples() -> Vec<Endpoint> {
    let mut v6 = [0u8; 16];
    for (i, b) in v6.iter_mut().enumerate() {
        *b = i as u8 * 17;
    }
    vec![
        Endpoint::V4 { octets: [10, 0, 0, 1], port: 1080 },
        Endpoint::V6 { octets: v6, port: 53 },
        Endpoint::Domain { name: b"a".to_vec(), port: 0 },
        Endpoint::Domain { name: vec![b'x'; 255], port: 65535 },
    ]
}

#[test]
fn request_endpoint_round_trip() {
    for e in samples() {
        let mut bytes = encode_request_endpoint(&e);
        let n = bytes.len();
        bytes.extend_from_slice(b"trailing");
        assert_eq!(decode_request_endpoint(&bytes), Ok((e, n)));
    }
}

#[test]
fn udp_endpoint_round_trip() {
    for e in samples() {
        let mut d = encode_udp_header(&e);
        let header_len = d.len();
        d.extend_from_slice(b"payload");
        assert_eq!(decode_udp_endpoint(&d, 3), Ok((e, header_len)));
    }
}

#[test]
fn encodings_are_exact() {
    assert_eq!(
        encode_request_endpoint(&Endpoint::V4 { octets: [127, 0, 0, 1], port: 80 }),
        vec![0x01, 0x7F, 0x00, 0x00, 0x01, 0x00, 0x50]
    );
    assert_eq!(
        encode_request_endpoint(&Endpoint::Domain { name: b"ab".to_vec(), port: 0x0102 }),
        vec![0x03, 0x02, b'a', b'b', 0x01, 0x02]
    );
    assert_eq!(
        encode_udp_header(&Endpoint::V4 { octets: [127, 0, 0, 1], port: 53 }),
        vec![0x00, 0x00, 0x00, 0x01, 0x7F, 0x00, 0x00, 0x01, 0x00, 0x35]
    );
    let v6 = encode_udp_header(&Endpoint::V6 { octets: [0xFF; 16], port: 0x1234 });
    assert_eq!(v6.len(), 22);
    assert_eq!(v6[3], 0x04);
    assert_eq!(&v6[20..], &[0x12, 0x34]);
}

#[test]
fn decode_errors() {
    assert_eq!(decode_request_endpoint(&[]), Err(AddressError::Truncated));
    assert_eq!(decode_request_endpoint(&[0x02, 0, 0]), Err(AddressError::UnsupportedAddressType));
    assert_eq!(decode_request_endpoint(&[0x01, 1, 2, 3, 4, 0]), Err(AddressError::Truncated));
    assert_eq!(decode_request_endpoint(&[0x04; 18]), Err(AddressError::Truncated));
    assert_eq!(decode_request_endpoint(&[0x03]), Err(AddressError::Truncated));
    assert_eq!(decode_request_endpoint(&[0x03, 0x00, 0, 0]), Err(AddressError::EmptyDomain));
    assert_eq!(decode_request_endpoint(&[0x03, 0x02, b'a', 0, 0]), Err(AddressError::Truncated));
    assert_eq!(decode_udp_endpoint(&[0, 0, 0], 3), Err(AddressError::Truncated));
}

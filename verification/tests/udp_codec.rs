use ua4f::udp::{
    decode_udp_header, encapsulate, encode_udp_header, route_datagram, same_address, AddressKind,
    UdpAddress, UdpError, UdpRoute,
};

#[test]
fn ipv4_datagram_is_decoded() {
    let datagram = [0, 0, 0, 1, 192, 168, 1, 20, 0x1f, 0x90, b'h', b'i'];
    let header = decode_udp_header(&datagram).unwrap();
    assert_eq!(header.frag, 0);
    assert_eq!(header.address.kind, AddressKind::V4);
    assert_eq!(header.address.host, vec![192, 168, 1, 20]);
    assert_eq!(header.address.port, 8080);
    assert_eq!(header.payload_start, 10);
    assert_eq!(&datagram[header.payload_start..], b"hi");
    assert!(header.address.is_valid());
}

#[test]
fn domain_datagram_is_decoded() {
    let mut datagram = vec![0, 0, 7, 3, 11];
    datagram.extend_from_slice(b"example.com");
    datagram.extend_from_slice(&[0x01, 0xbb]);
    datagram.extend_from_slice(b"payload");
    let header = decode_udp_header(&datagram).unwrap();
    assert_eq!(header.frag, 7);
    assert_eq!(header.address.kind, AddressKind::Domain);
    assert_eq!(header.address.host, b"example.com".to_vec());
    assert_eq!(header.address.port, 443);
    assert_eq!(header.payload_start, 18);
    assert_eq!(&datagram[header.payload_start..], b"payload");
}

#[test]
fn datagram_without_payload_is_decoded() {
    let header = decode_udp_header(&[0, 0, 0, 1, 10, 0, 0, 1, 0xff, 0xff]).unwrap();
    assert_eq!(header.address.port, 65535);
    assert_eq!(header.payload_start, 10);
    let header = decode_udp_header(&[0, 0, 0, 3, 0, 0, 53]).unwrap();
    assert_eq!(header.address.host, Vec::<u8>::new());
    assert_eq!(header.address.port, 53);
    assert_eq!(header.payload_start, 7);
}

#[test]
fn truncated_header_is_rejected() {
    let whole = [0u8, 0, 0, 1, 192, 168, 1, 20, 0x1f, 0x90];
    for len in 0..whole.len() {
        assert_eq!(decode_udp_header(&whole[..len]).err(), Some(UdpError::Truncated), "{}", len);
    }
    let mut domain = vec![0u8, 0, 0, 3, 11];
    domain.extend_from_slice(b"example.com");
    domain.extend_from_slice(&[0x01, 0xbb]);
    for len in 0..domain.len() {
        assert_eq!(decode_udp_header(&domain[..len]).err(), Some(UdpError::Truncated), "{}", len);
    }
    assert!(decode_udp_header(&domain).is_ok());
}

#[test]
fn other_address_types_are_rejected() {
    let mut v6 = vec![0u8, 0, 0, 4];
    v6.extend_from_slice(&[0u8; 16]);
    v6.extend_from_slice(&[0, 80]);
    assert_eq!(decode_udp_header(&v6).err(), Some(UdpError::UnsupportedAddressType));
    assert_eq!(decode_udp_header(&[0, 0, 0, 0]).err(), Some(UdpError::UnsupportedAddressType));
    assert_eq!(decode_udp_header(&[0, 0, 0, 2, 1, 2, 3, 4, 5, 6]).err(), Some(UdpError::UnsupportedAddressType));
    assert_eq!(decode_udp_header(&[0, 0, 0, 255]).err(), Some(UdpError::UnsupportedAddressType));
}

#[test]
fn headers_are_built() {
    let v4 = UdpAddress { kind: AddressKind::V4, host: vec![8, 8, 4, 4], port: 53 };
    assert_eq!(encode_udp_header(&v4), vec![0, 0, 0, 1, 8, 8, 4, 4, 0, 53]);
    let domain = UdpAddress { kind: AddressKind::Domain, host: b"a.io".to_vec(), port: 0x1234 };
    assert_eq!(encode_udp_header(&domain), vec![0, 0, 0, 3, 4, b'a', b'.', b'i', b'o', 0x12, 0x34]);
    let v6 = UdpAddress { kind: AddressKind::V6, host: (1..=16).collect(), port: 65535 };
    let mut expected = vec![0u8, 0, 0, 4];
    expected.extend(1..=16u8);
    expected.extend_from_slice(&[0xff, 0xff]);
    assert_eq!(encode_udp_header(&v6), expected);
}

#[test]
fn encapsulated_datagram_decodes_to_its_source() {
    let source = UdpAddress { kind: AddressKind::V4, host: vec![203, 0, 113, 9], port: 4500 };
    let datagram = encapsulate(&source, b"answer");
    assert_eq!(datagram, vec![0, 0, 0, 1, 203, 0, 113, 9, 0x11, 0x94, b'a', b'n', b's', b'w', b'e', b'r']);
    let header = decode_udp_header(&datagram).unwrap();
    assert_eq!(header.address.kind, source.kind);
    assert_eq!(header.address.host, source.host);
    assert_eq!(header.address.port, source.port);
    assert_eq!(&datagram[header.payload_start..], b"answer");
    assert_eq!(encapsulate(&source, b""), encode_udp_header(&source));
}

#[test]
fn address_validity() {
    assert!(UdpAddress { kind: AddressKind::V4, host: vec![1, 2, 3, 4], port: 1 }.is_valid());
    assert!(!UdpAddress { kind: AddressKind::V4, host: vec![1, 2, 3], port: 1 }.is_valid());
    assert!(!UdpAddress { kind: AddressKind::V6, host: vec![1, 2, 3, 4], port: 1 }.is_valid());
    assert!(UdpAddress { kind: AddressKind::V6, host: vec![0; 16], port: 1 }.is_valid());
    assert!(UdpAddress { kind: AddressKind::Domain, host: vec![b'a'; 255], port: 1 }.is_valid());
    assert!(!UdpAddress { kind: AddressKind::Domain, host: vec![b'a'; 256], port: 1 }.is_valid());
    assert!(UdpAddress { kind: AddressKind::Domain, host: vec![], port: 1 }.is_valid());
}

#[test]
fn datagrams_are_routed_by_their_sender() {
    let client = UdpAddress { kind: AddressKind::V4, host: vec![127, 0, 0, 1], port: 40000 };
    let target = UdpAddress { kind: AddressKind::V4, host: vec![9, 9, 9, 9], port: 53 };
    let outbound = [0, 0, 0, 1, 9, 9, 9, 9, 0, 53, b'q'];

    match route_datagram(None, &client, &outbound) {
        UdpRoute::ToTarget(header) => {
            assert!(same_address(&header.address, &target));
            assert_eq!(&outbound[header.payload_start..], b"q");
        }
        other => panic!("{:?}", other),
    }
    match route_datagram(Some(&client), &client, &outbound) {
        UdpRoute::ToTarget(header) => assert_eq!(header.payload_start, 10),
        other => panic!("{:?}", other),
    }
    match route_datagram(Some(&client), &target, b"a") {
        UdpRoute::ToClient(bytes) => assert_eq!(bytes, vec![0, 0, 0, 1, 9, 9, 9, 9, 0, 53, b'a']),
        other => panic!("{:?}", other),
    }
    match route_datagram(Some(&client), &client, &[0, 0, 0]) {
        UdpRoute::Dropped(err) => assert_eq!(err, UdpError::Truncated),
        other => panic!("{:?}", other),
    }
    match route_datagram(None, &target, &[0, 0, 0, 4, 1, 2]) {
        UdpRoute::Dropped(err) => assert_eq!(err, UdpError::UnsupportedAddressType),
        other => panic!("{:?}", other),
    }
}

#[test]
fn addresses_are_compared_by_kind_host_and_port() {
    let a = UdpAddress { kind: AddressKind::V4, host: vec![1, 2, 3, 4], port: 80 };
    assert!(same_address(&a, &a.clone()));
    assert!(!same_address(&a, &UdpAddress { port: 81, ..a.clone() }));
    assert!(!same_address(&a, &UdpAddress { host: vec![1, 2, 3, 5], ..a.clone() }));
    assert!(!same_address(&a, &UdpAddress { host: vec![1, 2, 3], ..a.clone() }));
    assert!(!same_address(&a, &UdpAddress { kind: AddressKind::Domain, ..a.clone() }));
}

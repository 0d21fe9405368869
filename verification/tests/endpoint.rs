use unisock::Endpoint;

#[test]
fn v4_packs_octets_most_significant_first() {
    let e = Endpoint::v4(127, 0, 0, 1, 9000);
    assert_eq!(e, Endpoint::V4 { addr: 0x7f00_0001, port: 9000 });
    let f = Endpoint::v4(192, 168, 1, 20, 53);
    assert_eq!(f, Endpoint::V4 { addr: 0xc0a8_0114, port: 53 });
}

#[test]
fn v4_extremes() {
    assert_eq!(Endpoint::v4(0, 0, 0, 0, 0), Endpoint::V4 { addr: 0, port: 0 });
    assert_eq!(
        Endpoint::v4(255, 255, 255, 255, 65535),
        Endpoint::V4 { addr: u32::MAX, port: u16::MAX }
    );
}

#[test]
fn family_and_port() {
    let four = Endpoint::v4(10, 0, 0, 7, 8080);
    let six = Endpoint::V6 { addr: 1, port: 443, flowinfo: 0, scope_id: 0 };
    assert!(four.is_ipv4());
    assert!(!six.is_ipv4());
    assert_eq!(four.port(), 8080);
    assert_eq!(six.port(), 443);
}

#[test]
fn key_of_v4_has_no_flow_or_scope() {
    let e = Endpoint::v4(127, 0, 0, 1, 40000);
    assert_eq!(e.to_key(), (false, 0x7f00_0001u128, 40000u16, 0u32, 0u32));
}

#[test]
fn key_of_v6_carries_every_field() {
    let e = Endpoint::V6 { addr: 0xfe80 << 112 | 1, port: 5000, flowinfo: 7, scope_id: 3 };
    assert_eq!(e.to_key(), (true, 0xfe80u128 << 112 | 1, 5000u16, 7u32, 3u32));
}

#[test]
fn keys_differ_when_endpoints_differ() {
    let four = Endpoint::V4 { addr: 1, port: 9 };
    let six = Endpoint::V6 { addr: 1, port: 9, flowinfo: 0, scope_id: 0 };
    assert_ne!(four, six);
    assert_ne!(four.to_key(), six.to_key());

    let scoped = Endpoint::V6 { addr: 1, port: 9, flowinfo: 0, scope_id: 2 };
    assert_ne!(six, scoped);
    assert_ne!(six.to_key(), scoped.to_key());

    let other_port = Endpoint::V4 { addr: 1, port: 10 };
    assert_ne!(four.to_key(), other_port.to_key());
    assert_eq!(four.to_key(), Endpoint::V4 { addr: 1, port: 9 }.to_key());
}

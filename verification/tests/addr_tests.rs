use tunnel_engine::addr::{host_text, HostAddr};
use tunnel_engine::auth::ct_eq;
use tunnel_engine::ident::{hex_lower, uuid_text};

#[test]
fn ipv4_text_is_dotted_decimal() {
    let h = HostAddr::Ipv4([93, 184, 216, 34]);
    assert_eq!(host_text(&h), b"93.184.216.34".to_vec());
    let zeros = HostAddr::Ipv4([0, 1, 10, 100]);
    assert_eq!(host_text(&zeros), b"0.1.10.100".to_vec());
    let max = HostAddr::Ipv4([255, 255, 255, 255]);
    assert_eq!(host_text(&max), b"255.255.255.255".to_vec());
}

#[test]
fn domain_text_is_the_name_itself() {
    let h = HostAddr::Domain(b"example.org".to_vec());
    assert_eq!(host_text(&h), b"example.org".to_vec());
}

#[test]
fn ipv6_text_is_uncompressed_groups() {
    let h = HostAddr::Ipv6([0x20, 0x01, 0x0d, 0xb8, 0, 0, 0, 0, 0, 0, 0, 0, 0, 0, 0, 1]);
    assert_eq!(host_text(&h), b"2001:db8:0:0:0:0:0:1".to_vec());
    let loopback = HostAddr::Ipv6([0, 0, 0, 0, 0, 0, 0, 0, 0, 0, 0, 0, 0, 0, 0, 1]);
    assert_eq!(host_text(&loopback), b"0:0:0:0:0:0:0:1".to_vec());
}

#[test]
fn hex_lower_matches_reference() {
    assert_eq!(hex_lower(&[0xde, 0xad, 0xbe, 0xef]), b"deadbeef".to_vec());
    assert_eq!(hex_lower(&[]), Vec::<u8>::new());
    assert_eq!(hex_lower(&[0x00, 0x0f]), b"000f".to_vec());
}

#[test]
fn uuid_text_matches_the_uuid_crate() {
    let u = uuid::Uuid::parse_str("b831381d-6324-4d53-ad4f-8cda48b30811").unwrap();
    let ours = String::from_utf8(uuid_text(u.as_bytes())).unwrap();
    assert_eq!(ours, u.hyphenated().to_string());
}

#[test]
fn constant_time_compare_agrees_with_equality() {
    assert!(ct_eq(b"abc", b"abc"));
    assert!(!ct_eq(b"abc", b"abd"));
    assert!(!ct_eq(b"abc", b"ab"));
    assert!(ct_eq(b"", b""));
    assert!(!ct_eq(b"\x00", b""));
}

use tunnel_engine::addr::HostAddr;
use tunnel_engine::config::Config;
use tunnel_engine::detect::Protocol;
use tunnel_engine::err::TunnelError;
use tunnel_engine::auth::validate_credential;
use tunnel_engine::header::{parse_header, parse_ss, parse_trojan, parse_vless, parse_vmess};

fn sample_uuid() -> [u8; 16] {
    *uuid::Uuid::parse_str("9c0d8f32-1a2b-4c5d-8e7f-a0b1c2d3e4f5")
        .unwrap()
        .as_bytes()
}

fn valid_vless() -> Vec<u8> {
    let mut b = vec![0u8];
    b.extend_from_slice(&sample_uuid());
    b.push(3); // addon block length
    b.extend_from_slice(&[9, 9, 9]); // addon bytes, opaque
    b.push(1); // command
    b.push(3); // address type: IPv6
    b.extend_from_slice(&[
        0x20, 0x01, 0x0d, 0xb8, 0, 0, 0, 0, 0, 0, 0, 0, 0, 0, 0, 1,
    ]);
    b.extend_from_slice(&[0x00, 0x50]);
    b
}

fn valid_trojan() -> Vec<u8> {
    let mut b = vec![b'0'; 56];
    b.extend_from_slice(b"\r\n");
    b.push(1);
    b.push(3); // address type: domain
    b.push(7);
    b.extend_from_slice(b"host.io");
    b.extend_from_slice(&[0x00, 0x16]);
    b.extend_from_slice(b"\r\n");
    b
}

fn valid_vmess() -> Vec<u8> {
    let mut b = sample_uuid().to_vec();
    b.push(0x42);
    b.push(1);
    b.push(1); // address type: IPv4
    b.extend_from_slice(&[198, 51, 100, 7]);
    b.extend_from_slice(&[0x00, 0x19]);
    b
}

fn valid_ss() -> Vec<u8> {
    let mut b = vec![4u8]; // address type: IPv6
    b.extend_from_slice(&[0xfe, 0x80, 0, 0, 0, 0, 0, 0, 0, 0, 0, 0, 0, 0, 0, 9]);
    b.extend_from_slice(&[0x23, 0x28]);
    b
}

#[test]
fn vless_parses_to_exact_fields() {
    let b = valid_vless();
    let p = parse_vless(&b).ok().unwrap();
    assert_eq!(p.credential, sample_uuid().to_vec());
    assert_eq!(p.command, 1);
    assert_eq!(
        p.dest.host,
        HostAddr::Ipv6([0x20, 0x01, 0x0d, 0xb8, 0, 0, 0, 0, 0, 0, 0, 0, 0, 0, 0, 1])
    );
    assert_eq!(p.dest.port, 80);
    assert_eq!(p.response, vec![0u8, 0u8]);
    assert!(p.leftover.is_empty());
}

#[test]
fn trojan_parses_to_exact_fields() {
    let b = valid_trojan();
    let p = parse_trojan(&b).ok().unwrap();
    assert_eq!(p.credential, vec![b'0'; 56]);
    assert_eq!(p.dest.host, HostAddr::Domain(b"host.io".to_vec()));
    assert_eq!(p.dest.port, 22);
    assert!(p.response.is_empty());
    assert!(p.leftover.is_empty());
}

#[test]
fn vmess_parses_to_exact_fields() {
    let b = valid_vmess();
    let p = parse_vmess(&b).ok().unwrap();
    assert_eq!(p.credential, sample_uuid().to_vec());
    assert_eq!(p.dest.host, HostAddr::Ipv4([198, 51, 100, 7]));
    assert_eq!(p.dest.port, 25);
    assert_eq!(p.response, vec![0x42, 0, 0, 0]);
}

#[test]
fn ss_parses_to_exact_fields() {
    let b = valid_ss();
    let p = parse_ss(&b).ok().unwrap();
    assert!(p.credential.is_empty());
    assert_eq!(
        p.dest.host,
        HostAddr::Ipv6([0xfe, 0x80, 0, 0, 0, 0, 0, 0, 0, 0, 0, 0, 0, 0, 0, 9])
    );
    assert_eq!(p.dest.port, 9000);
}

#[test]
fn every_truncation_point_yields_truncated_header() {
    let cases = [
        (Protocol::Vless, valid_vless()),
        (Protocol::Trojan, valid_trojan()),
        (Protocol::Vmess, valid_vmess()),
        (Protocol::Shadowsocks, valid_ss()),
    ];
    for (tag, full) in cases {
        assert!(parse_header(tag, &full).is_ok());
        for k in 0..full.len() {
            assert!(
                matches!(
                    parse_header(tag, &full[..k]),
                    Err(TunnelError::TruncatedHeader)
                ),
                "prefix of length {} for {:?}",
                k,
                tag
            );
        }
    }
}

#[test]
fn non_connect_command_is_unsupported() {
    let mut b = valid_vless();
    b[18 + 3] = 2; // command byte sits after the 3-byte addon block
    assert!(matches!(
        parse_vless(&b),
        Err(TunnelError::UnsupportedCommand)
    ));

    let mut t = valid_trojan();
    t[58] = 3;
    assert!(matches!(
        parse_trojan(&t),
        Err(TunnelError::UnsupportedCommand)
    ));

    let mut v = valid_vmess();
    v[17] = 2;
    assert!(matches!(
        parse_vmess(&v),
        Err(TunnelError::UnsupportedCommand)
    ));
}

#[test]
fn zero_port_is_truncated_header() {
    let mut b = valid_vless();
    let n = b.len();
    b[n - 2] = 0;
    b[n - 1] = 0;
    assert!(matches!(parse_vless(&b), Err(TunnelError::TruncatedHeader)));
}

#[test]
fn unknown_address_type_is_truncated_header() {
    let mut b = valid_vmess();
    b[18] = 9;
    assert!(matches!(parse_vmess(&b), Err(TunnelError::TruncatedHeader)));
}

#[test]
fn trojan_flipped_digest_bit_fails_validation_only() {
    let cfg = Config {
        uuid: sample_uuid(),
        host: b"h.example".to_vec(),
        proxy: None,
    };
    // A trojan header whose digest bytes are corrupted still parses to the
    // same destination; only validation fails, with AuthenticationFailed.
    let good = valid_trojan();
    let mut bad = good.clone();
    bad[10] ^= 0x04;
    let p_good = parse_trojan(&good).ok().unwrap();
    let p_bad = parse_trojan(&bad).ok().unwrap();
    assert_eq!(p_good.dest, p_bad.dest);
    assert_ne!(p_good.credential, p_bad.credential);
    assert!(matches!(
        validate_credential(Protocol::Trojan, &p_bad.credential, &cfg),
        Err(TunnelError::AuthenticationFailed)
    ));
}

#[test]
fn vless_domain_destination_with_leftover() {
    let mut b = vec![0u8];
    b.extend_from_slice(&sample_uuid());
    b.push(0);
    b.push(1);
    b.push(2); // domain
    b.push(11);
    b.extend_from_slice(b"example.com");
    b.extend_from_slice(&[0x01, 0xbb]);
    b.extend_from_slice(b"tail-bytes");
    let p = parse_vless(&b).ok().unwrap();
    assert_eq!(p.dest.host, HostAddr::Domain(b"example.com".to_vec()));
    assert_eq!(p.leftover, b"tail-bytes".to_vec());
}

use tunnel_engine::detect::{detect, Protocol};
use tunnel_engine::err::TunnelError;

fn vless_shaped() -> Vec<u8> {
    let mut b = vec![0u8]; // version byte
    b.extend_from_slice(&[7u8; 16]); // identifier
    b.push(2); // addon length
    b.extend_from_slice(&[0, 0]); // addon bytes
    b.extend_from_slice(&[1, 1, 9, 9, 9, 9, 0, 80]);
    b
}

fn trojan_shaped() -> Vec<u8> {
    let mut b = vec![b'f'; 56];
    b.extend_from_slice(b"\r\n");
    b.extend_from_slice(&[1, 1, 8, 8, 8, 8, 0, 80, 13, 10]);
    b
}

#[test]
fn detects_vless() {
    assert_eq!(detect(&vless_shaped()), Ok(Protocol::Vless));
}

#[test]
fn detects_trojan() {
    assert_eq!(detect(&trojan_shaped()), Ok(Protocol::Trojan));
}

#[test]
fn detects_vmess() {
    let mut b = vec![9u8; 16];
    b.push(0x11); // check byte
    b.push(1); // command
    b.push(1); // IPv4
    b.extend_from_slice(&[1, 2, 3, 4, 0, 80]);
    assert_eq!(detect(&b), Ok(Protocol::Vmess));
}

#[test]
fn detects_shadowsocks() {
    let mut b = vec![1u8];
    b.extend_from_slice(&[10, 0, 0, 1, 31, 144]);
    assert_eq!(detect(&b), Ok(Protocol::Shadowsocks));
}

#[test]
fn rejects_garbage() {
    assert_eq!(
        detect(&[0xff, 0x00, 0x31]),
        Err(TunnelError::DetectionFailed)
    );
    assert_eq!(detect(&[]), Err(TunnelError::DetectionFailed));
}

#[test]
fn priority_vless_beats_vmess() {
    // First byte 0 and a consistent addon length make a VLESS shape; the
    // same buffer also fits the VMess shape (address-type byte 1 at
    // position 18, length 25). The earlier check wins.
    let mut b = vec![0u8];
    b.extend_from_slice(&[3u8; 16]);
    b.push(0); // addon length 0: VLESS command would sit at 18
    b.push(1); // also the VMess address-type position
    b.extend_from_slice(&[1, 2, 3, 4, 5, 6]);
    assert!(b.len() == 25);
    assert_eq!(detect(&b), Ok(Protocol::Vless));
}

#[test]
fn priority_vmess_beats_shadowsocks() {
    // Address-type byte 1 at position 0 makes a Shadowsocks shape; a
    // plausible address-type at position 18 with enough bytes also makes
    // a VMess shape. The earlier check wins.
    let mut b = vec![1u8];
    b.extend_from_slice(&[0x55u8; 17]);
    b.push(1); // VMess address-type position
    b.extend_from_slice(&[9, 9, 9, 9, 9, 9]);
    assert!(b.len() == 25);
    assert_eq!(detect(&b), Ok(Protocol::Vmess));
}

use base64::Engine;
use tunnel_engine::links::{ss_link, trojan_link, vless_link, vmess_json, vmess_link};

fn sample_uuid() -> [u8; 16] {
    *uuid::Uuid::parse_str("b831381d-6324-4d53-ad4f-8cda48b30811")
        .unwrap()
        .as_bytes()
}

const UUID_TEXT: &str = "b831381d-6324-4d53-ad4f-8cda48b30811";
const HOST: &str = "tunnel.example.com";
const PATH: &str = "proxyIP-proxyPort";

#[test]
fn vless_link_matches_template() {
    let tls = vless_link(&sample_uuid(), HOST, PATH, true);
    assert_eq!(
        tls,
        format!(
            "vless://{}@{}:443?type=ws&security=tls&host={}&sni={}&path=/{}#[XSM]-VLESS-TLS",
            UUID_TEXT, HOST, HOST, HOST, PATH
        )
    );
    let plain = vless_link(&sample_uuid(), HOST, PATH, false);
    assert_eq!(
        plain,
        format!(
            "vless://{}@{}:80?type=ws&security=none&host={}&sni={}&path=/{}#[XSM]-VLESS-NTLS",
            UUID_TEXT, HOST, HOST, HOST, PATH
        )
    );
}

#[test]
fn trojan_link_matches_template() {
    let tls = trojan_link(&sample_uuid(), HOST, PATH, true);
    assert_eq!(
        tls,
        format!(
            "trojan://{}@{}:443?type=ws&security=tls&host={}&sni={}&path=/{}#[XSM]-TROJAN-TLS",
            UUID_TEXT, HOST, HOST, HOST, PATH
        )
    );
}

#[test]
fn ss_link_encodes_userinfo() {
    let got = ss_link(&sample_uuid(), HOST, PATH, false);
    let user = base64::engine::general_purpose::STANDARD.encode(format!("none:{}", UUID_TEXT));
    assert_eq!(
        got,
        format!(
            "ss://{}@{}:80?encryption=none&type=ws&host={}&path=/{}&security=none&fp=random#[XSM]-SS-NTLS",
            user, HOST, HOST, PATH
        )
    );
    let got_tls = ss_link(&sample_uuid(), HOST, PATH, true);
    assert!(got_tls.contains("&sni=tunnel.example.com#[XSM]-SS-TLS"));
    assert!(got_tls.starts_with(&format!("ss://{}@", user)));
}

#[test]
fn vmess_link_round_trips_through_base64_and_json() {
    let link = vmess_link(&sample_uuid(), HOST, PATH, true);
    assert!(link.starts_with("vmess://"));
    let decoded = base64::engine::general_purpose::URL_SAFE
        .decode(&link["vmess://".len()..])
        .unwrap();
    let v: serde_json::Value = serde_json::from_slice(&decoded).unwrap();
    assert_eq!(v.get("add").unwrap(), HOST);
    assert_eq!(v.get("id").unwrap(), UUID_TEXT);
    assert_eq!(v.get("port").unwrap(), "443");
    assert_eq!(v.get("tls").unwrap(), "tls");
    assert_eq!(v.get("ps").unwrap(), "[XSM]-VMESS-TLS");
    assert_eq!(v.get("path").unwrap(), &format!("/{}", PATH));
    assert_eq!(v.get("v").unwrap(), "2");
}

#[test]
fn vmess_json_is_the_compact_sorted_form() {
    let j = vmess_json(&sample_uuid(), "h", "p", false);
    let expected = format!(
        "{{\"add\":\"h\",\"aid\":\"0\",\"alpn\":\"\",\"host\":\"h\",\"id\":\"{}\",\"net\":\"ws\",\"path\":\"/p\",\"port\":\"80\",\"ps\":\"[XSM]-VMESS-NTLS\",\"scy\":\"zero\",\"sni\":\"h\",\"tls\":\"\",\"type\":\"none\",\"v\":\"2\"}}",
        UUID_TEXT
    );
    assert_eq!(j, expected);
    // serde_json agrees with our own rendering of the same object.
    let v: serde_json::Value = serde_json::from_str(&j).unwrap();
    assert_eq!(v.to_string(), expected);
}

use tunnel_engine::addr::{DialTarget, Endpoint, HostAddr};
use tunnel_engine::config::Config;
use tunnel_engine::resolve::{config_for_request, resolve_egress, route_override};

#[test]
fn route_token_splits_at_last_hyphen() {
    assert_eq!(
        route_override(b"proxy.example.com-443"),
        Some(DialTarget {
            addr: b"proxy.example.com".to_vec(),
            port: 443
        })
    );
    assert_eq!(
        route_override(b"a-b-12"),
        Some(DialTarget {
            addr: b"a-b".to_vec(),
            port: 12
        })
    );
}

#[test]
fn route_token_rejects_bad_shapes() {
    assert_eq!(route_override(b"abc"), None); // no hyphen
    assert_eq!(route_override(b"-12"), None); // empty address part
    assert_eq!(route_override(b"x-"), None); // no digits
    assert_eq!(route_override(b"x-12a"), None); // trailing non-digit
    assert_eq!(route_override(b""), None);
    assert_eq!(route_override(b"a\nb-1"), None); // line break in address
}

#[test]
fn route_token_port_bounds() {
    assert_eq!(
        route_override(b"h-65535"),
        Some(DialTarget {
            addr: b"h".to_vec(),
            port: 65535
        })
    );
    assert_eq!(route_override(b"h-65536"), None);
    assert_eq!(route_override(b"h-99999999999999999999"), None);
    assert_eq!(
        route_override(b"h-00443"),
        Some(DialTarget {
            addr: b"h".to_vec(),
            port: 443
        })
    );
    assert_eq!(
        route_override(b"h-0"),
        Some(DialTarget {
            addr: b"h".to_vec(),
            port: 0
        })
    );
}

#[test]
fn request_config_defaults_to_host_port_80() {
    let c = config_for_request([1; 16], b"visible.example".to_vec(), None);
    assert_eq!(
        c.proxy,
        Some(DialTarget {
            addr: b"visible.example".to_vec(),
            port: 80
        })
    );
    let c2 = config_for_request([1; 16], b"visible.example".to_vec(), Some(b"not a token"));
    assert_eq!(
        c2.proxy,
        Some(DialTarget {
            addr: b"visible.example".to_vec(),
            port: 80
        })
    );
    let c3 = config_for_request([1; 16], b"visible.example".to_vec(), Some(b"edge.host-8443"));
    assert_eq!(
        c3.proxy,
        Some(DialTarget {
            addr: b"edge.host".to_vec(),
            port: 8443
        })
    );
}

#[test]
fn resolving_twice_yields_the_same_target() {
    let dest = Endpoint {
        host: HostAddr::Domain(b"dest.example".to_vec()),
        port: 443,
    };
    let with_override = Config {
        uuid: [0; 16],
        host: b"h".to_vec(),
        proxy: Some(DialTarget {
            addr: b"relay".to_vec(),
            port: 1,
        }),
    };
    let first = resolve_egress(&dest, &with_override);
    let second = resolve_egress(&dest, &with_override);
    assert_eq!(first, second);

    let without = Config {
        uuid: [0; 16],
        host: b"h".to_vec(),
        proxy: None,
    };
    let third = resolve_egress(&dest, &without);
    let fourth = resolve_egress(&dest, &without);
    assert_eq!(third, fourth);
    assert_eq!(
        third,
        DialTarget {
            addr: b"dest.example".to_vec(),
            port: 443
        }
    );
}

#[test]
fn override_wins_regardless_of_destination() {
    let cfg = Config {
        uuid: [0; 16],
        host: b"h".to_vec(),
        proxy: Some(DialTarget {
            addr: b"relay".to_vec(),
            port: 7,
        }),
    };
    let d1 = Endpoint {
        host: HostAddr::Ipv4([9, 9, 9, 9]),
        port: 443,
    };
    let d2 = Endpoint {
        host: HostAddr::Domain(b"other.example".to_vec()),
        port: 80,
    };
    let expect = DialTarget {
        addr: b"relay".to_vec(),
        port: 7,
    };
    assert_eq!(resolve_egress(&d1, &cfg), expect);
    assert_eq!(resolve_egress(&d2, &cfg), expect);
}

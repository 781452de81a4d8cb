use tunnel_engine::err::TunnelError;
use tunnel_engine::relay::{open_relay, relay_outcome, relay_start, relay_step, RelayEvent};

#[test]
fn leftover_precedes_frames_and_is_sent_once() {
    let leftover = b"first".to_vec();
    let (mut st, out0) = relay_start(Vec::new(), leftover);
    let mut egress: Vec<u8> = Vec::new();
    egress.extend_from_slice(&out0.to_egress);
    for frame in [b"second".to_vec(), b"third".to_vec()] {
        let out = relay_step(&mut st, RelayEvent::ClientFrame(frame));
        egress.extend_from_slice(&out.to_egress);
        assert!(out.to_client.is_empty());
    }
    assert_eq!(egress, b"firstsecondthird".to_vec());
    assert_eq!(st.to_egress_count, 16);
}

#[test]
fn frames_after_client_end_are_dropped() {
    let (mut st, _) = relay_start(Vec::new(), Vec::new());
    let out = relay_step(&mut st, RelayEvent::ClientEnd(false));
    assert!(out.close_egress);
    let out2 = relay_step(&mut st, RelayEvent::ClientFrame(b"late".to_vec()));
    assert!(out2.to_egress.is_empty());
    assert_eq!(st.to_egress_count, 0);
}

#[test]
fn first_side_to_end_closes_the_other() {
    let (mut st, _) = relay_start(Vec::new(), Vec::new());
    let out = relay_step(&mut st, RelayEvent::EgressEnd(false));
    assert!(out.close_client);
    assert!(!out.close_egress);
    let out2 = relay_step(&mut st, RelayEvent::ClientEnd(false));
    assert!(!out2.close_egress); // already down
    assert_eq!(relay_outcome(&st), Ok(()));
}

#[test]
fn an_error_surfaces_as_relay_io_error() {
    let (mut st, _) = relay_start(Vec::new(), Vec::new());
    let _ = relay_step(&mut st, RelayEvent::ClientEnd(true));
    let _ = relay_step(&mut st, RelayEvent::EgressEnd(false));
    assert_eq!(relay_outcome(&st), Err(TunnelError::RelayIoError));
}

#[test]
fn counters_track_both_directions() {
    let (mut st, _) = relay_start(vec![0, 0], b"abc".to_vec());
    assert_eq!(st.to_egress_count, 3);
    assert_eq!(st.to_client_count, 2);
    let _ = relay_step(&mut st, RelayEvent::ClientFrame(b"xxxx".to_vec()));
    let _ = relay_step(&mut st, RelayEvent::EgressChunk(b"yyyyy".to_vec()));
    assert_eq!(st.to_egress_count, 7);
    assert_eq!(st.to_client_count, 7);
}

#[test]
fn response_header_is_written_to_the_client_first() {
    let (mut st, out) = relay_start(vec![0, 0], Vec::new());
    assert_eq!(out.to_client, vec![0, 0]);
    assert!(out.to_egress.is_empty());
    let out2 = relay_step(&mut st, RelayEvent::EgressChunk(b"data".to_vec()));
    assert_eq!(out2.to_client, b"data".to_vec());
}

#[test]
fn failed_dial_is_egress_connect_failed() {
    let r = open_relay(vec![0, 0], b"payload".to_vec(), false);
    assert!(matches!(r, Err(TunnelError::EgressConnectFailed)));
}

#[test]
fn successful_dial_opens_the_pump() {
    let (st, out) = open_relay(vec![0, 0], b"payload".to_vec(), true).ok().unwrap();
    assert_eq!(out.to_client, vec![0, 0]);
    assert_eq!(out.to_egress, b"payload".to_vec());
    assert_eq!(st.to_egress_count, 7);
    assert!(st.client_open && st.egress_open && !st.failed);
}

//! The relay pump's decision core. The two forwarding directions run as
//! outside loops; every read they complete comes back here as an event,
//! and the step function says what to write where, what to close, and how
//! the state advances. The state carries no buffers — only the open
//! flags, the failure flag, and the byte counters kept for observability.
//!
//! Within one direction bytes are forwarded strictly in arrival order;
//! the first direction to end triggers a best-effort close of the other;
//! an I/O error surfaces as `RelayIoError` once both directions are down.

use vstd::prelude::*;
use crate::err::TunnelError;

verus! {

/// The relay's whole mutable state.
#[derive(Clone, Copy, PartialEq, Eq, Structural, Debug)]
pub struct RelayState {
    /// The client channel still delivers frames.
    pub client_open: bool,
    /// The egress stream still delivers bytes.
    pub egress_open: bool,
    /// Some read or write ended in an error.
    pub failed: bool,
    /// Bytes sent towards the egress stream, saturating.
    pub to_egress_count: u64,
    /// Bytes sent towards the client channel, saturating.
    pub to_client_count: u64,
}

/// One completed read, from either direction. The flag on an end event
/// says whether the direction ended in an error rather than a clean
/// close.
pub enum RelayEvent {
    ClientFrame(Vec<u8>),
    EgressChunk(Vec<u8>),
    ClientEnd(bool),
    EgressEnd(bool),
}

/// The mathematical model of an event.
pub enum RelayEventView {
    ClientFrame(Seq<u8>),
    EgressChunk(Seq<u8>),
    ClientEnd(bool),
    EgressEnd(bool),
}

impl View for RelayEvent {
    type V = RelayEventView;

    open spec fn view(&self) -> RelayEventView {
        match self {
            RelayEvent::ClientFrame(d) => RelayEventView::ClientFrame(d@),
            RelayEvent::EgressChunk(d) => RelayEventView::EgressChunk(d@),
            RelayEvent::ClientEnd(e) => RelayEventView::ClientEnd(*e),
            RelayEvent::EgressEnd(e) => RelayEventView::EgressEnd(*e),
        }
    }
}

/// What one step asks the outside loops to do: bytes to write to each
/// side (empty means nothing), and which sides to close.
pub struct RelayOutput {
    pub to_egress: Vec<u8>,
    pub to_client: Vec<u8>,
    pub close_egress: bool,
    pub close_client: bool,
}

/// The mathematical effect of one step.
pub struct StepEffect {
    pub next: RelayState,
    pub to_egress: Seq<u8>,
    pub to_client: Seq<u8>,
    pub close_egress: bool,
    pub close_client: bool,
}

/// Saturating addition into a 64-bit counter.
pub open spec fn sat_add(a: u64, n: int) -> u64 {
    if a + n > u64::MAX {
        u64::MAX
    } else {
        (a + n) as u64
    }
}

/// A step that moves nothing and changes nothing.
pub open spec fn idle_effect(s: RelayState) -> StepEffect {
    StepEffect {
        next: s,
        to_egress: Seq::empty(),
        to_client: Seq::empty(),
        close_egress: false,
        close_client: false,
    }
}

/// The transition relation of the relay. Data events forward their bytes
/// while both sides are open and are dropped otherwise; an end event
/// closes its own side and asks for the other side to be closed, and
/// records whether it was an error.
pub open spec fn spec_relay_step(s: RelayState, e: RelayEventView) -> StepEffect {
    match e {
        RelayEventView::ClientFrame(d) => if s.client_open && s.egress_open {
            StepEffect {
                next: RelayState {
                    client_open: s.client_open,
                    egress_open: s.egress_open,
                    failed: s.failed,
                    to_egress_count: sat_add(s.to_egress_count, d.len() as int),
                    to_client_count: s.to_client_count,
                },
                to_egress: d,
                to_client: Seq::empty(),
                close_egress: false,
                close_client: false,
            }
        } else {
            idle_effect(s)
        },
        RelayEventView::EgressChunk(d) => if s.client_open && s.egress_open {
            StepEffect {
                next: RelayState {
                    client_open: s.client_open,
                    egress_open: s.egress_open,
                    failed: s.failed,
                    to_egress_count: s.to_egress_count,
                    to_client_count: sat_add(s.to_client_count, d.len() as int),
                },
                to_egress: Seq::empty(),
                to_client: d,
                close_egress: false,
                close_client: false,
            }
        } else {
            idle_effect(s)
        },
        RelayEventView::ClientEnd(err) => if s.client_open {
            StepEffect {
                next: RelayState {
                    client_open: false,
                    egress_open: s.egress_open,
                    failed: s.failed || err,
                    to_egress_count: s.to_egress_count,
                    to_client_count: s.to_client_count,
                },
                to_egress: Seq::empty(),
                to_client: Seq::empty(),
                close_egress: s.egress_open,
                close_client: false,
            }
        } else {
            idle_effect(s)
        },
        RelayEventView::EgressEnd(err) => if s.egress_open {
            StepEffect {
                next: RelayState {
                    client_open: s.client_open,
                    egress_open: false,
                    failed: s.failed || err,
                    to_egress_count: s.to_egress_count,
                    to_client_count: s.to_client_count,
                },
                to_egress: Seq::empty(),
                to_client: Seq::empty(),
                close_egress: false,
                close_client: s.client_open,
            }
        } else {
            idle_effect(s)
        },
    }
}

/// The state a fresh tunnel starts in, its counters already covering the
/// response header and the leftover payload that `relay_start` emits.
pub open spec fn spec_relay_start(response: Seq<u8>, leftover: Seq<u8>) -> RelayState {
    RelayState {
        client_open: true,
        egress_open: true,
        failed: false,
        to_egress_count: sat_add(0, leftover.len() as int),
        to_client_count: sat_add(0, response.len() as int),
    }
}

/// Saturating addition, executable.
fn sat_add_exec(a: u64, n: usize) -> (r: u64)
    ensures
        r == sat_add(a, n as int),
{
    if a <= u64::MAX - (n as u64) {
        a + (n as u64)
    } else {
        u64::MAX
    }
}

/// Opens the relay phase of a tunnel: the response header goes to the
/// client and the leftover payload goes to the egress stream, before any
/// event is processed — so the leftover precedes every later client
/// frame, and is sent exactly once.
pub fn relay_start(response: Vec<u8>, leftover: Vec<u8>) -> (r: (RelayState, RelayOutput))
    ensures
        r.0 == spec_relay_start(response@, leftover@),
        r.1.to_client@ == response@,
        r.1.to_egress@ == leftover@,
        !r.1.close_egress,
        !r.1.close_client,
{
    let te = sat_add_exec(0, leftover.len());
    let tc = sat_add_exec(0, response.len());
    let state = RelayState {
        client_open: true,
        egress_open: true,
        failed: false,
        to_egress_count: te,
        to_client_count: tc,
    };
    let out = RelayOutput {
        to_egress: leftover,
        to_client: response,
        close_egress: false,
        close_client: false,
    };
    (state, out)
}

/// Opens the relay phase once the host reports the outbound dial's
/// outcome. A failed dial ends the session as `EgressConnectFailed`,
/// with nothing written and no retry — the destination is a fixed fact
/// of the connection's first bytes. A live stream starts the pump as
/// `relay_start` does.
pub fn open_relay(response: Vec<u8>, leftover: Vec<u8>, connected: bool) -> (r: Result<
    (RelayState, RelayOutput),
    TunnelError,
>)
    ensures
        connected ==> (r matches Ok(p) && {
            &&& p.0 == spec_relay_start(response@, leftover@)
            &&& p.1.to_client@ == response@
            &&& p.1.to_egress@ == leftover@
            &&& !p.1.close_egress
            &&& !p.1.close_client
        }),
        !connected ==> r == Err::<(RelayState, RelayOutput), TunnelError>(
            TunnelError::EgressConnectFailed,
        ),
{
    if connected {
        Ok(relay_start(response, leftover))
    } else {
        Err(TunnelError::EgressConnectFailed)
    }
}

/// Advances the relay by one event.
pub fn relay_step(s: &mut RelayState, e: RelayEvent) -> (out: RelayOutput)
    ensures
        *final(s) == spec_relay_step(*old(s), e@).next,
        out.to_egress@ == spec_relay_step(*old(s), e@).to_egress,
        out.to_client@ == spec_relay_step(*old(s), e@).to_client,
        out.close_egress == spec_relay_step(*old(s), e@).close_egress,
        out.close_client == spec_relay_step(*old(s), e@).close_client,
{
    match e {
        RelayEvent::ClientFrame(d) => {
            if s.client_open && s.egress_open {
                s.to_egress_count = sat_add_exec(s.to_egress_count, d.len());
                RelayOutput {
                    to_egress: d,
                    to_client: Vec::new(),
                    close_egress: false,
                    close_client: false,
                }
            } else {
                RelayOutput {
                    to_egress: Vec::new(),
                    to_client: Vec::new(),
                    close_egress: false,
                    close_client: false,
                }
            }
        },
        RelayEvent::EgressChunk(d) => {
            if s.client_open && s.egress_open {
                s.to_client_count = sat_add_exec(s.to_client_count, d.len());
                RelayOutput {
                    to_egress: Vec::new(),
                    to_client: d,
                    close_egress: false,
                    close_client: false,
                }
            } else {
                RelayOutput {
                    to_egress: Vec::new(),
                    to_client: Vec::new(),
                    close_egress: false,
                    close_client: false,
                }
            }
        },
        RelayEvent::ClientEnd(err) => {
            if s.client_open {
                let was_egress_open = s.egress_open;
                s.client_open = false;
                s.failed = s.failed || err;
                RelayOutput {
                    to_egress: Vec::new(),
                    to_client: Vec::new(),
                    close_egress: was_egress_open,
                    close_client: false,
                }
            } else {
                RelayOutput {
                    to_egress: Vec::new(),
                    to_client: Vec::new(),
                    close_egress: false,
                    close_client: false,
                }
            }
        },
        RelayEvent::EgressEnd(err) => {
            if s.egress_open {
                let was_client_open = s.client_open;
                s.egress_open = false;
                s.failed = s.failed || err;
                RelayOutput {
                    to_egress: Vec::new(),
                    to_client: Vec::new(),
                    close_egress: false,
                    close_client: was_client_open,
                }
            } else {
                RelayOutput {
                    to_egress: Vec::new(),
                    to_client: Vec::new(),
                    close_egress: false,
                    close_client: false,
                }
            }
        },
    }
}

/// Both directions are down.
pub open spec fn relay_finished(s: RelayState) -> bool {
    !s.client_open && !s.egress_open
}

/// How the relay phase ended: an error if any direction failed.
pub fn relay_outcome(s: &RelayState) -> (r: Result<(), TunnelError>)
    ensures
        r == if s.failed {
            Err::<(), TunnelError>(TunnelError::RelayIoError)
        } else {
            Ok::<(), TunnelError>(())
        },
{
    if s.failed {
        Err(TunnelError::RelayIoError)
    } else {
        Ok(())
    }
}

/// Every event in the trace is a client frame.
pub open spec fn all_client_frames(es: Seq<RelayEventView>) -> bool {
    forall|i: int| 0 <= i < es.len() ==> es[i] is ClientFrame
}

/// The client frames of a trace, concatenated in arrival order.
pub open spec fn frames_bytes(es: Seq<RelayEventView>) -> Seq<u8>
    decreases es.len(),
{
    if es.len() == 0 {
        Seq::empty()
    } else {
        (match es[0] {
            RelayEventView::ClientFrame(d) => d,
            _ => Seq::empty(),
        }) + frames_bytes(es.skip(1))
    }
}

/// The bytes the egress stream receives over a trace of events.
pub open spec fn egress_stream(s: RelayState, es: Seq<RelayEventView>) -> Seq<u8>
    decreases es.len(),
{
    if es.len() == 0 {
        Seq::empty()
    } else {
        let eff = spec_relay_step(s, es[0]);
        eff.to_egress + egress_stream(eff.next, es.skip(1))
    }
}

/// While both sides are open, the egress stream receives exactly the
/// client frames, in arrival order — no byte duplicated, dropped or
/// reordered.
pub proof fn lemma_egress_stream_in_order(s: RelayState, es: Seq<RelayEventView>)
    requires
        s.client_open,
        s.egress_open,
        all_client_frames(es),
    ensures
        egress_stream(s, es) == frames_bytes(es),
    decreases es.len(),
{
    if es.len() > 0 {
        assert(es[0] is ClientFrame);
        let eff = spec_relay_step(s, es[0]);
        assert(all_client_frames(es.skip(1))) by {
            assert(forall|i: int|
                0 <= i < es.skip(1).len() ==> es.skip(1)[i] == #[trigger] es[i + 1]);
        }
        lemma_egress_stream_in_order(eff.next, es.skip(1));
    }
}

/// Every event in the trace is an egress chunk.
pub open spec fn all_egress_chunks(es: Seq<RelayEventView>) -> bool {
    forall|i: int| 0 <= i < es.len() ==> es[i] is EgressChunk
}

/// The egress chunks of a trace, concatenated in arrival order.
pub open spec fn chunks_bytes(es: Seq<RelayEventView>) -> Seq<u8>
    decreases es.len(),
{
    if es.len() == 0 {
        Seq::empty()
    } else {
        (match es[0] {
            RelayEventView::EgressChunk(d) => d,
            _ => Seq::empty(),
        }) + chunks_bytes(es.skip(1))
    }
}

/// The bytes the client channel receives over a trace of events.
pub open spec fn client_stream(s: RelayState, es: Seq<RelayEventView>) -> Seq<u8>
    decreases es.len(),
{
    if es.len() == 0 {
        Seq::empty()
    } else {
        let eff = spec_relay_step(s, es[0]);
        eff.to_client + client_stream(eff.next, es.skip(1))
    }
}

/// The same, for the other direction: while both sides are open, the
/// client channel receives exactly the egress chunks, in arrival order.
pub proof fn lemma_client_stream_in_order(s: RelayState, es: Seq<RelayEventView>)
    requires
        s.client_open,
        s.egress_open,
        all_egress_chunks(es),
    ensures
        client_stream(s, es) == chunks_bytes(es),
    decreases es.len(),
{
    if es.len() > 0 {
        assert(es[0] is EgressChunk);
        let eff = spec_relay_step(s, es[0]);
        assert(all_egress_chunks(es.skip(1))) by {
            assert(forall|i: int|
                0 <= i < es.skip(1).len() ==> es.skip(1)[i] == #[trigger] es[i + 1]);
        }
        lemma_client_stream_in_order(eff.next, es.skip(1));
    }
}

/// The whole egress-bound stream of a session: the leftover payload
/// first — emitted once, by `relay_start` — then every client frame, in
/// order. Nothing is duplicated and nothing is dropped.
pub proof fn lemma_leftover_then_frames(
    response: Seq<u8>,
    leftover: Seq<u8>,
    es: Seq<RelayEventView>,
)
    requires
        all_client_frames(es),
    ensures
        leftover + egress_stream(spec_relay_start(response, leftover), es) == leftover
            + frames_bytes(es),
{
    lemma_egress_stream_in_order(spec_relay_start(response, leftover), es);
}

} // verus!

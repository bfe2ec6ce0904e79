//! The proxy as a whole: every accepted connection is one session, each
//! with its own state and its own pair of byte transcripts. The laws here
//! say that sessions never touch one another, that a failed establishment
//! relays nothing and stops nothing else, and that an active relay carries
//! each direction's bytes exactly as they arrived.
use vstd::prelude::*;

use crate::session::SessionEvent;
use crate::session::SessionState;
use crate::session::is_terminal;
use crate::session::spec_step;

verus! {

/// One session as the model sees it: its state and what has flowed through
/// its relay in each direction.
#[verifier::ext_equal]
pub struct SessionModel {
    pub state: SessionState,
    /// Bytes the session put on the wire towards the target, in order.
    pub to_target: Seq<u8>,
    /// Bytes the session handed back to its client, in order.
    pub to_client: Seq<u8>,
}

/// A freshly accepted session: nothing has happened, nothing has flowed.
pub open spec fn accepted_session() -> SessionModel {
    SessionModel {
        state: SessionState::Accepted,
        to_target: Seq::empty(),
        to_client: Seq::empty(),
    }
}

/// What can happen to one session: a control event of its task, or a chunk
/// of bytes read from one of its two sockets.
pub enum TunnelEvent {
    Control(SessionEvent),
    FromClient(Seq<u8>),
    FromTarget(Seq<u8>),
}

/// One step of one session. A control event moves the state exactly as the
/// session state machine says and touches no transcript; a chunk of bytes
/// is appended to its direction's transcript while the session is relaying,
/// and goes nowhere in any other state — no tunnel exists there to carry
/// it.
pub open spec fn session_step(m: SessionModel, e: TunnelEvent) -> SessionModel {
    match e {
        TunnelEvent::Control(c) => SessionModel {
            state: spec_step(m.state, c).0,
            to_target: m.to_target,
            to_client: m.to_client,
        },
        TunnelEvent::FromClient(bytes) => if m.state is Relaying {
            SessionModel { state: m.state, to_target: m.to_target + bytes, to_client: m.to_client }
        } else {
            m
        },
        TunnelEvent::FromTarget(bytes) => if m.state is Relaying {
            SessionModel { state: m.state, to_target: m.to_target, to_client: m.to_client + bytes }
        } else {
            m
        },
    }
}

/// A run of one session: its events, applied in order.
pub open spec fn session_run(m: SessionModel, events: Seq<TunnelEvent>) -> SessionModel
    decreases events.len(),
{
    if events.len() == 0 {
        m
    } else {
        session_run(session_step(m, events.first()), events.drop_first())
    }
}

/// The whole proxy: the sessions accepted so far, by their number. A step
/// of the proxy is a step of exactly one session.
pub open spec fn proxy_step(
    sessions: Map<int, SessionModel>,
    id: int,
    e: TunnelEvent,
) -> Map<int, SessionModel>
    recommends
        sessions.dom().contains(id),
{
    sessions.insert(id, session_step(sessions[id], e))
}

/// Law: sessions are isolated. Whatever happens to one session — control
/// or data, in any state — every other session's state and transcripts are
/// exactly what they were: no byte of session `a` is ever observed on
/// session `b`'s sockets.
pub proof fn lemma_sessions_isolated(
    sessions: Map<int, SessionModel>,
    a: int,
    e: TunnelEvent,
    b: int,
)
    requires
        a != b,
        sessions.dom().contains(b),
    ensures
        proxy_step(sessions, a, e).dom().contains(b),
        proxy_step(sessions, a, e)[b] == sessions[b],
{
}

/// Law: one session's outcome does not spread. After any step of session
/// `a` — a failed establishment included — a step of a different session
/// `b` leaves `b` exactly as that step alone would have: a failure cannot
/// prevent an independent connection from succeeding.
pub proof fn lemma_failure_does_not_spread(
    sessions: Map<int, SessionModel>,
    a: int,
    ea: TunnelEvent,
    b: int,
    eb: TunnelEvent,
)
    requires
        a != b,
        sessions.dom().contains(a),
        sessions.dom().contains(b),
    ensures
        proxy_step(proxy_step(sessions, a, ea), b, eb)[b] == proxy_step(sessions, b, eb)[b],
{
}

/// Law: a terminal session is inert — no event moves its state or its
/// transcripts again.
pub proof fn lemma_terminal_sessions_inert(m: SessionModel, e: TunnelEvent)
    requires
        is_terminal(m.state),
    ensures
        session_step(m, e) == m,
{
    assert(session_step(m, e) =~= m);
}

/// Law: a whole run leaves a terminal session untouched.
pub proof fn lemma_terminal_runs_inert(m: SessionModel, events: Seq<TunnelEvent>)
    requires
        is_terminal(m.state),
    ensures
        session_run(m, events) == m,
    decreases events.len(),
{
    if events.len() > 0 {
        lemma_terminal_sessions_inert(m, events.first());
        lemma_terminal_runs_inert(m, events.drop_first());
    }
}

/// Law: a session whose establishment failed relays nothing, ever. After
/// the launch and the failure, whatever events still arrive, the session
/// stays `Failed` and not one byte stands on either of its transcripts —
/// its client receives no tunneled data.
pub proof fn lemma_failed_session_relays_nothing(rest: Seq<TunnelEvent>)
    ensures
        ({
            let launch = TunnelEvent::Control(SessionEvent::Launch);
            let fail = TunnelEvent::Control(SessionEvent::EstablishFailed);
            let end = session_run(accepted_session(), seq![launch, fail] + rest);
            &&& end.state == SessionState::Failed
            &&& end.to_target == Seq::<u8>::empty()
            &&& end.to_client == Seq::<u8>::empty()
        }),
{
    let launch = TunnelEvent::Control(SessionEvent::Launch);
    let fail = TunnelEvent::Control(SessionEvent::EstablishFailed);
    let events = seq![launch, fail] + rest;
    let after_launch = session_step(accepted_session(), launch);
    let after_fail = session_step(after_launch, fail);
    assert(events.first() == launch);
    assert(events.drop_first() =~= seq![fail] + rest);
    assert(session_run(accepted_session(), events) == session_run(
        after_launch,
        seq![fail] + rest,
    ));
    assert((seq![fail] + rest).first() == fail);
    assert((seq![fail] + rest).drop_first() =~= rest);
    assert(session_run(after_launch, seq![fail] + rest) == session_run(after_fail, rest));
    lemma_terminal_runs_inert(after_fail, rest);
}

/// Whether an event is a chunk of relayed data.
pub open spec fn is_data_event(e: TunnelEvent) -> bool {
    e matches TunnelEvent::FromClient(_) || e matches TunnelEvent::FromTarget(_)
}

/// The bytes a list of events carries towards the target: the client
/// chunks' contents, concatenated in arrival order.
pub open spec fn client_bytes_of(events: Seq<TunnelEvent>) -> Seq<u8>
    decreases events.len(),
{
    if events.len() == 0 {
        Seq::empty()
    } else {
        client_bytes_of(events.drop_last()) + (match events.last() {
            TunnelEvent::FromClient(bytes) => bytes,
            _ => Seq::empty(),
        })
    }
}

/// The bytes a list of events carries back to the client: the target
/// chunks' contents, concatenated in arrival order.
pub open spec fn target_bytes_of(events: Seq<TunnelEvent>) -> Seq<u8>
    decreases events.len(),
{
    if events.len() == 0 {
        Seq::empty()
    } else {
        target_bytes_of(events.drop_last()) + (match events.last() {
            TunnelEvent::FromTarget(bytes) => bytes,
            _ => Seq::empty(),
        })
    }
}

/// A run takes its events one after another: running them all and then one
/// more is stepping once after the run.
pub proof fn lemma_run_append(m: SessionModel, events: Seq<TunnelEvent>, e: TunnelEvent)
    ensures
        session_run(m, events.push(e)) == session_step(session_run(m, events), e),
    decreases events.len(),
{
    if events.len() == 0 {
        assert(events.push(e).first() == e);
        assert(events.push(e).drop_first() =~= Seq::<TunnelEvent>::empty());
        assert(session_run(m, events.push(e)) == session_run(
            session_step(m, e),
            Seq::<TunnelEvent>::empty(),
        ));
        assert(session_run(session_step(m, e), Seq::<TunnelEvent>::empty()) == session_step(
            m,
            e,
        ));
    } else {
        assert(events.push(e).first() == events.first());
        assert(events.push(e).drop_first() =~= events.drop_first().push(e));
        assert(session_run(m, events.push(e)) == session_run(
            session_step(m, events.first()),
            events.drop_first().push(e),
        ));
        lemma_run_append(session_step(m, events.first()), events.drop_first(), e);
        assert(session_run(m, events) == session_run(
            session_step(m, events.first()),
            events.drop_first(),
        ));
    }
}

/// Law: an active relay carries its bytes exactly. While a session relays,
/// a run of data chunks leaves it relaying, and each direction's transcript
/// has grown by exactly that direction's chunks, concatenated in arrival
/// order — byte-identity in both directions, no reordering, no duplication,
/// no truncation.
pub proof fn lemma_relay_stream_identity(m: SessionModel, events: Seq<TunnelEvent>)
    requires
        m.state is Relaying,
        forall|i: int| 0 <= i < events.len() ==> is_data_event(#[trigger] events[i]),
    ensures
        session_run(m, events).state is Relaying,
        session_run(m, events).to_target == m.to_target + client_bytes_of(events),
        session_run(m, events).to_client == m.to_client + target_bytes_of(events),
    decreases events.len(),
{
    if events.len() == 0 {
        assert(m.to_target + Seq::<u8>::empty() =~= m.to_target);
        assert(m.to_client + Seq::<u8>::empty() =~= m.to_client);
    } else {
        let prefix = events.drop_last();
        let e = events.last();
        assert forall|i: int| 0 <= i < prefix.len() implies is_data_event(
            #[trigger] prefix[i],
        ) by {
            assert(prefix[i] == events[i]);
        }
        lemma_relay_stream_identity(m, prefix);
        assert(events =~= prefix.push(e));
        lemma_run_append(m, prefix, e);
        assert(session_run(m, events).to_target =~= m.to_target + client_bytes_of(events));
        assert(session_run(m, events).to_client =~= m.to_client + target_bytes_of(events));
    }
}

} // verus!

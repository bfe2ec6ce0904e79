//! The per-connection session state machine. Each accepted connection walks
//! `Accepted -> Establishing -> Relaying -> Closed` when everything goes
//! well, or stops at `Failed` when the tunnel cannot be established; the
//! terminal states are never left. The surrounding task feeds events in and
//! performs the returned action.
use vstd::prelude::*;

verus! {

/// Where a session stands. `Closed` and `Failed` are terminal.
#[derive(Clone, Copy, Debug, PartialEq, Eq, Structural)]
pub enum SessionState {
    /// The client connection was accepted; nothing has happened yet.
    Accepted,
    /// The tunnel to the upstream proxy is being established.
    Establishing,
    /// Bytes are being relayed between the client and the tunnel.
    Relaying,
    /// The relay ended, by end-of-stream or by an I/O fault; both sockets
    /// are closed.
    Closed,
    /// The tunnel could not be established; the client socket is closed,
    /// nothing was relayed.
    Failed,
}

/// What the surrounding task observed.
#[derive(Clone, Copy, Debug, PartialEq, Eq, Structural)]
pub enum SessionEvent {
    /// The per-connection task started.
    Launch,
    /// The CONNECT handshake succeeded and the stream was upgraded.
    EstablishOk,
    /// Connecting, the handshake, the CONNECT exchange or the upgrade
    /// failed.
    EstablishFailed,
    /// One side of the relay reached end-of-stream.
    PeerClosed,
    /// An I/O fault hit the relay on either side.
    RelayFault,
}

/// What the task must do next.
#[derive(Clone, Copy, Debug, PartialEq, Eq, Structural)]
pub enum SessionAction {
    /// Call the tunnel establisher.
    Establish,
    /// Start the bidirectional copy between the two sockets.
    StartRelay,
    /// Report a warning and close the client socket; no tunnel exists.
    CloseClientWithWarning,
    /// Close both the client socket and the tunnel.
    CloseBoth,
    /// Report a warning and close both sockets.
    CloseBothWithWarning,
    /// Do nothing: the event does not belong to this state.
    Keep,
}

/// The transition table: next state and action for a state and an event.
/// Events that do not belong to the state leave it as it stands.
pub open spec fn spec_step(state: SessionState, event: SessionEvent) -> (SessionState,
    SessionAction) {
    match (state, event) {
        (SessionState::Accepted, SessionEvent::Launch) => (
            SessionState::Establishing,
            SessionAction::Establish,
        ),
        (SessionState::Establishing, SessionEvent::EstablishOk) => (
            SessionState::Relaying,
            SessionAction::StartRelay,
        ),
        (SessionState::Establishing, SessionEvent::EstablishFailed) => (
            SessionState::Failed,
            SessionAction::CloseClientWithWarning,
        ),
        (SessionState::Relaying, SessionEvent::PeerClosed) => (
            SessionState::Closed,
            SessionAction::CloseBoth,
        ),
        (SessionState::Relaying, SessionEvent::RelayFault) => (
            SessionState::Closed,
            SessionAction::CloseBothWithWarning,
        ),
        _ => (state, SessionAction::Keep),
    }
}

/// Whether a session can move no further.
pub open spec fn is_terminal(state: SessionState) -> bool {
    state is Closed || state is Failed
}

/// How far along its life a session is; transitions never lower it.
pub open spec fn spec_rank(state: SessionState) -> int {
    match state {
        SessionState::Accepted => 0,
        SessionState::Establishing => 1,
        SessionState::Relaying => 2,
        SessionState::Closed => 3,
        SessionState::Failed => 3,
    }
}

/// Whether an action closes the tunnel socket (along with the client's).
pub open spec fn closes_tunnel(action: SessionAction) -> bool {
    action is CloseBoth || action is CloseBothWithWarning
}

/// Decides one step of a session: the next state and the action the task
/// must perform.
pub fn step(state: SessionState, event: SessionEvent) -> (r: (SessionState, SessionAction))
    ensures
        r == spec_step(state, event),
{
    match (state, event) {
        (SessionState::Accepted, SessionEvent::Launch) => (
            SessionState::Establishing,
            SessionAction::Establish,
        ),
        (SessionState::Establishing, SessionEvent::EstablishOk) => (
            SessionState::Relaying,
            SessionAction::StartRelay,
        ),
        (SessionState::Establishing, SessionEvent::EstablishFailed) => (
            SessionState::Failed,
            SessionAction::CloseClientWithWarning,
        ),
        (SessionState::Relaying, SessionEvent::PeerClosed) => (
            SessionState::Closed,
            SessionAction::CloseBoth,
        ),
        (SessionState::Relaying, SessionEvent::RelayFault) => (
            SessionState::Closed,
            SessionAction::CloseBothWithWarning,
        ),
        _ => (state, SessionAction::Keep),
    }
}

/// Law: the terminal states are truly terminal — no event moves a closed or
/// failed session, and no further action is asked of its task.
pub proof fn lemma_terminal_states_are_final(state: SessionState, event: SessionEvent)
    requires
        is_terminal(state),
    ensures
        spec_step(state, event) == (state, SessionAction::Keep),
{
}

/// Law: there is no transition back — a step never lowers a session's rank,
/// so `Accepted -> Establishing -> Relaying -> Closed` and
/// `Accepted -> Establishing -> Failed` are the only walks.
pub proof fn lemma_no_transition_back(state: SessionState, event: SessionEvent)
    ensures
        spec_rank(spec_step(state, event).0) >= spec_rank(state),
{
}

/// Law: a session relays only after its tunnel establishment succeeded —
/// `Relaying` is entered through `EstablishOk` alone.
pub proof fn lemma_relaying_only_after_success(state: SessionState, event: SessionEvent)
    ensures
        spec_step(state, event).0 is Relaying ==> state is Relaying || (state is Establishing
            && event is EstablishOk),
{
}

/// Law: when either side of an active relay closes or faults, the very same
/// step ends the session and its action closes the tunnel socket — the
/// tunnel never outlives the client connection.
pub proof fn lemma_relay_end_closes_tunnel(event: SessionEvent)
    requires
        event is PeerClosed || event is RelayFault,
    ensures
        spec_step(SessionState::Relaying, event).0 is Closed,
        closes_tunnel(spec_step(SessionState::Relaying, event).1),
{
}

} // verus!

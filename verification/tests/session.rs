use connect_proxy::session::step;
use connect_proxy::session::SessionAction;
use connect_proxy::session::SessionEvent;
use connect_proxy::session::SessionState;

#[test]
fn success_path_walks_to_closed() {
    let (state, action) = step(SessionState::Accepted, SessionEvent::Launch);
    assert_eq!(state, SessionState::Establishing);
    assert_eq!(action, SessionAction::Establish);

    let (state, action) = step(state, SessionEvent::EstablishOk);
    assert_eq!(state, SessionState::Relaying);
    assert_eq!(action, SessionAction::StartRelay);

    let (state, action) = step(state, SessionEvent::PeerClosed);
    assert_eq!(state, SessionState::Closed);
    assert_eq!(action, SessionAction::CloseBoth);
}

#[test]
fn client_close_closes_tunnel_in_same_step() {
    let (state, action) = step(SessionState::Relaying, SessionEvent::PeerClosed);
    assert_eq!(state, SessionState::Closed);
    assert_eq!(action, SessionAction::CloseBoth);
}

#[test]
fn relay_fault_closes_both_with_warning() {
    let (state, action) = step(SessionState::Relaying, SessionEvent::RelayFault);
    assert_eq!(state, SessionState::Closed);
    assert_eq!(action, SessionAction::CloseBothWithWarning);
}

#[test]
fn scenario_rejected_connect_fails_session_only() {
    // The upstream proxy answers the CONNECT with a non-success status:
    // the session fails, the client socket is closed with a warning and
    // nothing was relayed.
    let (state, action) = step(SessionState::Accepted, SessionEvent::Launch);
    let (state, action2) = step(state, SessionEvent::EstablishFailed);
    assert_eq!(action, SessionAction::Establish);
    assert_eq!(state, SessionState::Failed);
    assert_eq!(action2, SessionAction::CloseClientWithWarning);

    // The listener goes on: a later, independent session still succeeds.
    let (next, _) = step(SessionState::Accepted, SessionEvent::Launch);
    let (next, _) = step(next, SessionEvent::EstablishOk);
    assert_eq!(next, SessionState::Relaying);
}

#[test]
fn terminal_states_ignore_every_event() {
    let events = [
        SessionEvent::Launch,
        SessionEvent::EstablishOk,
        SessionEvent::EstablishFailed,
        SessionEvent::PeerClosed,
        SessionEvent::RelayFault,
    ];
    for terminal in [SessionState::Closed, SessionState::Failed] {
        for event in events {
            let (state, action) = step(terminal, event);
            assert_eq!(state, terminal);
            assert_eq!(action, SessionAction::Keep);
        }
    }
}

#[test]
fn relaying_needs_established_tunnel() {
    // No event moves a session into Relaying but a successful
    // establishment.
    let states = [
        SessionState::Accepted,
        SessionState::Establishing,
        SessionState::Relaying,
        SessionState::Closed,
        SessionState::Failed,
    ];
    let events = [
        SessionEvent::Launch,
        SessionEvent::EstablishOk,
        SessionEvent::EstablishFailed,
        SessionEvent::PeerClosed,
        SessionEvent::RelayFault,
    ];
    for state in states {
        for event in events {
            let (next, _) = step(state, event);
            if next == SessionState::Relaying {
                assert!(
                    state == SessionState::Relaying
                        || (state == SessionState::Establishing
                            && event == SessionEvent::EstablishOk)
                );
            }
        }
    }
}

use limiinal_core::errors::RelayError;
use limiinal_core::relay::{
    RelayAction, RelayCoordinator, RelayEvent, RelayPhase, ReservationState, Role,
    MAX_RESERVATION_REREQUESTS,
};

/// Drives a listener through address learning, up to the reservation request.
fn bootstrapped_listener() -> RelayCoordinator {
    let mut c = RelayCoordinator::new(Role::Listener);
    assert_eq!(c.step(RelayEvent::Start), RelayAction::DialRelay);
    assert_eq!(c.phase, RelayPhase::DialingRelay);
    assert_eq!(c.step(RelayEvent::RelayConnected), RelayAction::Ignore);
    assert_eq!(c.phase, RelayPhase::AddressLearning);
    // one condition alone does not leave the address-learning phase
    assert_eq!(c.step(RelayEvent::ObservedAddressLearned), RelayAction::Ignore);
    assert_eq!(c.phase, RelayPhase::AddressLearning);
    assert_eq!(c.step(RelayEvent::AddressToldToRelay), RelayAction::RequestReservation);
    assert_eq!(c.phase, RelayPhase::Bootstrapped);
    assert_eq!(c.reservation, Some(ReservationState::Requested));
    c
}

#[test]
fn listener_bootstrap_requests_reservation() {
    bootstrapped_listener();
}

#[test]
fn rejection_during_bootstrap_is_fatal_and_never_listens() {
    let mut c = bootstrapped_listener();
    let action = c.step(RelayEvent::ReservationRejected);
    assert_eq!(action, RelayAction::Fatal(RelayError::ReservationRejected));
    assert_eq!(c.phase, RelayPhase::Failed);
    assert_eq!(c.reservation, Some(ReservationState::Rejected));

    // no later event moves a failed coordinator; it never reaches Listening
    let all_events = [
        RelayEvent::Start,
        RelayEvent::RelayConnected,
        RelayEvent::ObservedAddressLearned,
        RelayEvent::AddressToldToRelay,
        RelayEvent::ReservationAccepted,
        RelayEvent::ReservationRejected,
        RelayEvent::ReservationExpired,
        RelayEvent::RenewalDue,
        RelayEvent::InboundCircuitOpened,
        RelayEvent::CircuitEstablished,
        RelayEvent::CircuitRefused,
        RelayEvent::RelayDialFailed,
    ];
    for ev in all_events {
        assert_eq!(c.step(ev), RelayAction::Ignore);
        assert_eq!(c.phase, RelayPhase::Failed);
        assert_ne!(c.phase, RelayPhase::Listening);
    }
}

#[test]
fn acceptance_starts_listening_and_inbound_establishes() {
    let mut c = bootstrapped_listener();
    assert_eq!(c.step(RelayEvent::ReservationAccepted), RelayAction::Ignore);
    assert_eq!(c.phase, RelayPhase::Listening);
    assert_eq!(c.reservation, Some(ReservationState::Accepted));
    assert_eq!(c.step(RelayEvent::InboundCircuitOpened), RelayAction::AcceptInbound);
    assert_eq!(c.phase, RelayPhase::Established);
}

#[test]
fn expiry_demotes_to_fresh_request() {
    let mut c = bootstrapped_listener();
    c.step(RelayEvent::ReservationAccepted);
    assert_eq!(c.step(RelayEvent::ReservationExpired), RelayAction::RequestReservation);
    assert_eq!(c.phase, RelayPhase::Bootstrapped);
    assert_eq!(c.reservation, Some(ReservationState::Requested));
    // an expired reservation admits no inbound traffic
    assert_eq!(c.step(RelayEvent::InboundCircuitOpened), RelayAction::Ignore);
}

#[test]
fn mid_session_rejection_demotes_then_gives_up() {
    let mut c = bootstrapped_listener();
    c.step(RelayEvent::ReservationAccepted);
    // each lost reservation is re-requested, a bounded number of times
    for _ in 0..MAX_RESERVATION_REREQUESTS {
        assert_eq!(c.step(RelayEvent::ReservationRejected), RelayAction::RequestReservation);
        assert_eq!(c.phase, RelayPhase::Bootstrapped);
    }
    assert_eq!(
        c.step(RelayEvent::ReservationRejected),
        RelayAction::Fatal(RelayError::ReservationRejected)
    );
    assert_eq!(c.phase, RelayPhase::Failed);
}

#[test]
fn renewal_refreshes_without_leaving_listening() {
    let mut c = bootstrapped_listener();
    c.step(RelayEvent::ReservationAccepted);
    assert_eq!(c.step(RelayEvent::RenewalDue), RelayAction::RequestReservation);
    assert_eq!(c.phase, RelayPhase::Listening);
    assert_eq!(c.reservation, Some(ReservationState::Accepted));
    assert_eq!(c.step(RelayEvent::ReservationAccepted), RelayAction::Ignore);
    assert_eq!(c.phase, RelayPhase::Listening);
}

#[test]
fn dialer_bootstrap_dials_peer_and_establishes() {
    let mut c = RelayCoordinator::new(Role::Dialer);
    assert_eq!(c.step(RelayEvent::Start), RelayAction::DialRelay);
    assert_eq!(c.step(RelayEvent::RelayConnected), RelayAction::Ignore);
    assert_eq!(c.step(RelayEvent::AddressToldToRelay), RelayAction::Ignore);
    assert_eq!(c.step(RelayEvent::ObservedAddressLearned), RelayAction::DialPeerViaRelay);
    assert_eq!(c.phase, RelayPhase::DialingPeer);
    assert_eq!(c.step(RelayEvent::CircuitEstablished), RelayAction::Ignore);
    assert_eq!(c.phase, RelayPhase::Established);
}

#[test]
fn circuit_refusal_is_fatal_for_dialer() {
    let mut c = RelayCoordinator::new(Role::Dialer);
    c.step(RelayEvent::Start);
    c.step(RelayEvent::RelayConnected);
    c.step(RelayEvent::ObservedAddressLearned);
    c.step(RelayEvent::AddressToldToRelay);
    assert_eq!(c.phase, RelayPhase::DialingPeer);
    assert_eq!(
        c.step(RelayEvent::CircuitRefused),
        RelayAction::Fatal(RelayError::CircuitRefused)
    );
    assert_eq!(c.phase, RelayPhase::Failed);
}

#[test]
fn relay_dial_failure_is_fatal() {
    let mut c = RelayCoordinator::new(Role::Listener);
    c.step(RelayEvent::Start);
    assert_eq!(c.step(RelayEvent::RelayDialFailed), RelayAction::FatalDial);
    assert_eq!(c.phase, RelayPhase::Failed);
}

use limiinal_core::errors::HolePunchError;
use limiinal_core::holepunch::{
    HolePunchCoordinator, PunchDirective, PunchEvent, MAX_PUNCH_ATTEMPTS,
};
use limiinal_core::identity::{PeerId, PeerIdentity};

fn peer(seed: u8) -> PeerId {
    PeerIdentity::derive(seed).peer_id().duplicate()
}

#[test]
fn successful_upgrade_flow() {
    let remote = peer(2);
    let mut c = HolePunchCoordinator::new();
    assert_eq!(c.step(&remote, PunchEvent::RelayedOpened), PunchDirective::SendCandidates);
    // a second relayed connection to the same peer starts no second attempt
    assert_eq!(c.step(&remote, PunchEvent::RelayedOpened), PunchDirective::Ignore);
    assert_eq!(
        c.step(&remote, PunchEvent::CandidatesReceived { candidate_count: 2, rtt_ms: 100 }),
        PunchDirective::ScheduleDial { delay_ms: 50 }
    );
    assert_eq!(c.step(&remote, PunchEvent::SyncTimerFired), PunchDirective::DialNow);
    assert_eq!(
        c.step(&remote, PunchEvent::DirectConnected),
        PunchDirective::MigrateAndCloseRelay
    );
    // once direct, further punch events about this peer do nothing
    assert_eq!(c.step(&remote, PunchEvent::DirectDialFailed), PunchDirective::Ignore);
}

#[test]
fn synchronized_delay_is_half_the_round_trip() {
    let remote = peer(2);
    let mut c = HolePunchCoordinator::new();
    c.step(&remote, PunchEvent::RelayedOpened);
    assert_eq!(
        c.step(&remote, PunchEvent::CandidatesReceived { candidate_count: 1, rtt_ms: 31 }),
        PunchDirective::ScheduleDial { delay_ms: 15 }
    );
}

#[test]
fn events_for_unknown_peers_are_ignored() {
    let known = peer(2);
    let unknown = peer(3);
    let mut c = HolePunchCoordinator::new();
    c.step(&known, PunchEvent::RelayedOpened);
    assert_eq!(c.step(&unknown, PunchEvent::SyncTimerFired), PunchDirective::Ignore);
    assert_eq!(c.step(&unknown, PunchEvent::DirectConnected), PunchDirective::Ignore);
}

#[test]
fn failure_retries_up_to_the_ceiling_then_relay_only() {
    let remote = peer(2);
    let mut c = HolePunchCoordinator::new();
    assert_eq!(c.step(&remote, PunchEvent::RelayedOpened), PunchDirective::SendCandidates);
    for attempt in 0..MAX_PUNCH_ATTEMPTS {
        assert_eq!(
            c.step(&remote, PunchEvent::CandidatesReceived { candidate_count: 1, rtt_ms: 40 }),
            PunchDirective::ScheduleDial { delay_ms: 20 },
            "attempt {attempt}"
        );
        assert_eq!(c.step(&remote, PunchEvent::SyncTimerFired), PunchDirective::DialNow);
        // every dial fails; each failure below the ceiling restarts the exchange
        assert_eq!(
            c.step(&remote, PunchEvent::DirectDialFailed),
            PunchDirective::SendCandidates
        );
    }
    // the dial after the last allowed retry exhausts the ceiling
    c.step(&remote, PunchEvent::CandidatesReceived { candidate_count: 1, rtt_ms: 40 });
    c.step(&remote, PunchEvent::SyncTimerFired);
    assert_eq!(
        c.step(&remote, PunchEvent::DirectDialFailed),
        PunchDirective::GiveUp { reason: HolePunchError::RetriesExhausted }
    );
    // relay-only is final for the session: nothing restarts the attempt
    assert_eq!(c.step(&remote, PunchEvent::RelayedOpened), PunchDirective::Ignore);
    assert_eq!(
        c.step(&remote, PunchEvent::CandidatesReceived { candidate_count: 1, rtt_ms: 40 }),
        PunchDirective::Ignore
    );
}

#[test]
fn empty_candidate_list_counts_as_failure() {
    let remote = peer(2);
    let mut c = HolePunchCoordinator::new();
    c.step(&remote, PunchEvent::RelayedOpened);
    assert_eq!(
        c.step(&remote, PunchEvent::CandidatesReceived { candidate_count: 0, rtt_ms: 40 }),
        PunchDirective::SendCandidates
    );
}

#[test]
fn exhausted_exchanges_without_candidates_give_up() {
    let remote = peer(2);
    let mut c = HolePunchCoordinator::new();
    c.step(&remote, PunchEvent::RelayedOpened);
    // every exchange comes back empty, up to the ceiling
    for _ in 0..MAX_PUNCH_ATTEMPTS {
        assert_eq!(
            c.step(&remote, PunchEvent::CandidatesReceived { candidate_count: 0, rtt_ms: 40 }),
            PunchDirective::SendCandidates
        );
    }
    assert_eq!(
        c.step(&remote, PunchEvent::CandidatesReceived { candidate_count: 0, rtt_ms: 40 }),
        PunchDirective::GiveUp { reason: HolePunchError::NoCandidates }
    );
}

#[test]
fn failure_before_the_synchronized_dial_is_a_sync_failure() {
    let remote = peer(2);
    let mut c = HolePunchCoordinator::new();
    c.step(&remote, PunchEvent::RelayedOpened);
    // exhaust the retries with dials that fail while the timer is armed
    for _ in 0..MAX_PUNCH_ATTEMPTS {
        c.step(&remote, PunchEvent::CandidatesReceived { candidate_count: 1, rtt_ms: 40 });
        assert_eq!(
            c.step(&remote, PunchEvent::DirectDialFailed),
            PunchDirective::SendCandidates
        );
    }
    c.step(&remote, PunchEvent::CandidatesReceived { candidate_count: 1, rtt_ms: 40 });
    assert_eq!(
        c.step(&remote, PunchEvent::DirectDialFailed),
        PunchDirective::GiveUp { reason: HolePunchError::SyncFailed }
    );
}

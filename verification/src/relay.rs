//! Relay bootstrap state machine.
//!
//! The coordinator dials a well-known relay, waits until it has both learned
//! its externally observed address and told the relay its own, then branches
//! by role: a listener requests a reservation on the relay and accepts
//! relayed inbound connections once the relay accepts; a dialer opens a
//! relayed circuit to the target peer. A rejection during bootstrap is fatal;
//! expiry or rejection after a reservation was once accepted demotes the
//! coordinator to requesting a fresh one, a bounded number of times.
//!
//! Every transition is a pure function of the current state and one event;
//! [`relay_transition`] is that function, and [`RelayCoordinator::step`]
//! returns exactly what it says.

use vstd::prelude::*;

use crate::errors::RelayError;

verus! {

/// How many times a once-accepted reservation may be re-requested after
/// expiry or rejection before the coordinator gives up.
pub const MAX_RESERVATION_REREQUESTS: u8 = 3;

/// The configured role of this peer.
#[derive(Clone, Copy, Debug, PartialEq, Eq, Structural)]
pub enum Role {
    /// Hold a reservation on the relay and accept relayed inbound traffic.
    Listener,
    /// Reach a target peer through a relayed circuit.
    Dialer,
}

/// Where the coordinator stands in the bootstrap.
#[derive(Clone, Copy, Debug, PartialEq, Eq, Structural)]
pub enum RelayPhase {
    /// Nothing has happened yet.
    Init,
    /// The dial to the relay is in flight.
    DialingRelay,
    /// Connected to the relay; exchanging addresses.
    AddressLearning,
    /// Addresses exchanged; a listener's reservation request is pending.
    Bootstrapped,
    /// Reservation accepted; accepting relayed inbound connections.
    Listening,
    /// A dialer's relayed circuit to the target peer is in flight.
    DialingPeer,
    /// A relayed connection to the remote peer exists.
    Established,
    /// Bootstrap failed fatally; the coordinator is inert.
    Failed,
}

/// The lifecycle of a relay reservation.
#[derive(Clone, Copy, Debug, PartialEq, Eq, Structural)]
pub enum ReservationState {
    /// Requested, response pending.
    Requested,
    /// Accepted by the relay and still believed valid.
    Accepted,
    /// Rejected by the relay.
    Rejected,
    /// Ran out before renewal.
    Expired,
}

/// A relay protocol event, as the driver observes it.
#[derive(Clone, Copy, Debug, PartialEq, Eq, Structural)]
pub enum RelayEvent {
    /// The owner asks the coordinator to begin.
    Start,
    /// The connection to the relay is established.
    RelayConnected,
    /// The relay's address-exchange message told us our observed address.
    ObservedAddressLearned,
    /// The relay acknowledged receiving our address.
    AddressToldToRelay,
    /// The relay accepted the reservation request.
    ReservationAccepted,
    /// The relay rejected the reservation request.
    ReservationRejected,
    /// The reservation ran out.
    ReservationExpired,
    /// The renewal timer says the reservation should be refreshed.
    RenewalDue,
    /// A relayed inbound connection arrived (listener side).
    InboundCircuitOpened,
    /// The relayed circuit to the target peer is up (dialer side).
    CircuitEstablished,
    /// The relay refused to open the circuit (dialer side).
    CircuitRefused,
    /// The dial to the relay itself failed.
    RelayDialFailed,
}

/// What the driver must do after a transition.
#[derive(Clone, Copy, Debug, PartialEq, Eq, Structural)]
pub enum RelayAction {
    /// Nothing; unexpected events are logged and ignored.
    Ignore,
    /// Dial the configured relay address.
    DialRelay,
    /// Listen on the relay's address with the circuit marker appended.
    RequestReservation,
    /// Dial the target peer through the relay's circuit address.
    DialPeerViaRelay,
    /// Register the relayed inbound connection; only ever issued while the
    /// reservation is accepted.
    AcceptInbound,
    /// Bootstrap is lost; surface this single terminal error.
    Fatal(RelayError),
    /// Bootstrap is lost because the relay could not be dialed; the caller
    /// holds the transport error to surface.
    FatalDial,
}

/// The relay coordinator's whole state. Mutated only through [`Self::step`],
/// and only by the owning event loop.
#[derive(Clone, Copy, Debug, PartialEq, Eq, Structural)]
pub struct RelayCoordinator {
    /// The configured role.
    pub role: Role,
    /// Current phase of the bootstrap.
    pub phase: RelayPhase,
    /// Whether the relay has told us our externally observed address.
    pub learned_observed_addr: bool,
    /// Whether the relay has acknowledged receiving our address.
    pub told_relay_observed_addr: bool,
    /// The reservation, once one has been requested.
    pub reservation: Option<ReservationState>,
    /// Whether any reservation was ever accepted (bootstrap is then over).
    pub ever_accepted: bool,
    /// How many fresh requests followed a lost, once-accepted reservation.
    pub rerequests: u8,
}

/// Structural invariant of the coordinator.
pub open spec fn relay_wf(s: RelayCoordinator) -> bool {
    &&& s.phase is Listening ==> s.reservation == Some(ReservationState::Accepted)
        && s.ever_accepted
    &&& s.reservation is Some ==> s.role is Listener
    &&& s.reservation is Some ==> (s.phase is Bootstrapped || s.phase is Listening || s.phase
        is Established || s.phase is Failed)
    &&& s.role is Dialer ==> !(s.phase is Bootstrapped) && !(s.phase is Listening)
    &&& s.ever_accepted ==> s.reservation is Some
    &&& s.rerequests <= MAX_RESERVATION_REREQUESTS
}

/// Both address-learning conditions hold, so the bootstrap may branch by
/// role: a listener requests its reservation, a dialer opens the circuit.
pub open spec fn branch_by_role(s: RelayCoordinator) -> (RelayCoordinator, RelayAction) {
    if s.role is Listener {
        (
            RelayCoordinator {
                phase: RelayPhase::Bootstrapped,
                reservation: Some(ReservationState::Requested),
                ..s
            },
            RelayAction::RequestReservation,
        )
    } else {
        (RelayCoordinator { phase: RelayPhase::DialingPeer, ..s }, RelayAction::DialPeerViaRelay)
    }
}

/// A once-accepted reservation was lost: request a fresh one, up to the
/// bounded number of times. When the bound is spent, the relay path is
/// considered refused for good and the reservation rejection is surfaced
/// as the terminal error.
pub open spec fn demote(s: RelayCoordinator, lost: ReservationState) -> (
    RelayCoordinator,
    RelayAction,
) {
    if s.rerequests < MAX_RESERVATION_REREQUESTS {
        (
            RelayCoordinator {
                phase: RelayPhase::Bootstrapped,
                reservation: Some(ReservationState::Requested),
                rerequests: (s.rerequests + 1) as u8,
                ..s
            },
            RelayAction::RequestReservation,
        )
    } else {
        (
            RelayCoordinator { phase: RelayPhase::Failed, reservation: Some(lost), ..s },
            RelayAction::Fatal(RelayError::ReservationRejected),
        )
    }
}

/// The transition function: the next state and the driver's instruction for
/// one event. Events that make no sense in the current phase change nothing
/// and are ignored (logged by the driver), never escalated.
pub open spec fn relay_transition(s: RelayCoordinator, ev: RelayEvent) -> (
    RelayCoordinator,
    RelayAction,
) {
    if s.phase is Failed {
        (s, RelayAction::Ignore)
    } else {
        match ev {
            RelayEvent::Start => {
                if s.phase is Init {
                    (RelayCoordinator { phase: RelayPhase::DialingRelay, ..s }, RelayAction::DialRelay)
                } else {
                    (s, RelayAction::Ignore)
                }
            },
            RelayEvent::RelayConnected => {
                if s.phase is DialingRelay {
                    (RelayCoordinator { phase: RelayPhase::AddressLearning, ..s }, RelayAction::Ignore)
                } else {
                    (s, RelayAction::Ignore)
                }
            },
            RelayEvent::ObservedAddressLearned => {
                if s.phase is AddressLearning {
                    let s2 = RelayCoordinator { learned_observed_addr: true, ..s };
                    if s2.learned_observed_addr && s2.told_relay_observed_addr {
                        branch_by_role(s2)
                    } else {
                        (s2, RelayAction::Ignore)
                    }
                } else {
                    (s, RelayAction::Ignore)
                }
            },
            RelayEvent::AddressToldToRelay => {
                if s.phase is AddressLearning {
                    let s2 = RelayCoordinator { told_relay_observed_addr: true, ..s };
                    if s2.learned_observed_addr && s2.told_relay_observed_addr {
                        branch_by_role(s2)
                    } else {
                        (s2, RelayAction::Ignore)
                    }
                } else {
                    (s, RelayAction::Ignore)
                }
            },
            RelayEvent::ReservationAccepted => {
                if s.reservation is Some && (s.phase is Bootstrapped || s.phase is Listening
                    || s.phase is Established) {
                    let phase = if s.phase is Bootstrapped {
                        RelayPhase::Listening
                    } else {
                        s.phase
                    };
                    (
                        RelayCoordinator {
                            phase,
                            reservation: Some(ReservationState::Accepted),
                            ever_accepted: true,
                            rerequests: 0,
                            ..s
                        },
                        RelayAction::Ignore,
                    )
                } else {
                    (s, RelayAction::Ignore)
                }
            },
            RelayEvent::ReservationRejected => {
                if s.reservation is Some {
                    if !s.ever_accepted {
                        (
                            RelayCoordinator {
                                phase: RelayPhase::Failed,
                                reservation: Some(ReservationState::Rejected),
                                ..s
                            },
                            RelayAction::Fatal(RelayError::ReservationRejected),
                        )
                    } else {
                        demote(s, ReservationState::Rejected)
                    }
                } else {
                    (s, RelayAction::Ignore)
                }
            },
            RelayEvent::ReservationExpired => {
                if s.reservation == Some(ReservationState::Accepted) {
                    demote(s, ReservationState::Expired)
                } else {
                    (s, RelayAction::Ignore)
                }
            },
            RelayEvent::RenewalDue => {
                if s.reservation == Some(ReservationState::Accepted) {
                    (s, RelayAction::RequestReservation)
                } else {
                    (s, RelayAction::Ignore)
                }
            },
            RelayEvent::InboundCircuitOpened => {
                if s.reservation == Some(ReservationState::Accepted) && (s.phase is Listening
                    || s.phase is Established) {
                    (RelayCoordinator { phase: RelayPhase::Established, ..s }, RelayAction::AcceptInbound)
                } else {
                    (s, RelayAction::Ignore)
                }
            },
            RelayEvent::CircuitEstablished => {
                if s.phase is DialingPeer {
                    (RelayCoordinator { phase: RelayPhase::Established, ..s }, RelayAction::Ignore)
                } else {
                    (s, RelayAction::Ignore)
                }
            },
            RelayEvent::CircuitRefused => {
                if s.phase is DialingPeer {
                    (
                        RelayCoordinator { phase: RelayPhase::Failed, ..s },
                        RelayAction::Fatal(RelayError::CircuitRefused),
                    )
                } else {
                    (s, RelayAction::Ignore)
                }
            },
            RelayEvent::RelayDialFailed => {
                if s.phase is DialingRelay {
                    (RelayCoordinator { phase: RelayPhase::Failed, ..s }, RelayAction::FatalDial)
                } else {
                    (s, RelayAction::Ignore)
                }
            },
        }
    }
}

impl RelayCoordinator {
    /// The state a coordinator starts in.
    pub open spec fn spec_initial(role: Role) -> RelayCoordinator {
        RelayCoordinator {
            role,
            phase: RelayPhase::Init,
            learned_observed_addr: false,
            told_relay_observed_addr: false,
            reservation: None,
            ever_accepted: false,
            rerequests: 0,
        }
    }

    /// A coordinator at the very start of the bootstrap.
    pub fn new(role: Role) -> (r: RelayCoordinator)
        ensures
            relay_wf(r),
            r == RelayCoordinator::spec_initial(role),
    {
        RelayCoordinator {
            role,
            phase: RelayPhase::Init,
            learned_observed_addr: false,
            told_relay_observed_addr: false,
            reservation: None,
            ever_accepted: false,
            rerequests: 0,
        }
    }

    /// Feeds one event through [`relay_transition`] and returns the action.
    pub fn step(&mut self, ev: RelayEvent) -> (r: RelayAction)
        requires
            relay_wf(*old(self)),
        ensures
            relay_wf(*final(self)),
            (*final(self), r) == relay_transition(*old(self), ev),
    {
        let s = *self;
        if matches!(s.phase, RelayPhase::Failed) {
            return RelayAction::Ignore;
        }
        let (s2, action): (RelayCoordinator, RelayAction) = match ev {
            RelayEvent::Start => {
                if matches!(s.phase, RelayPhase::Init) {
                    (RelayCoordinator { phase: RelayPhase::DialingRelay, ..s }, RelayAction::DialRelay)
                } else {
                    (s, RelayAction::Ignore)
                }
            },
            RelayEvent::RelayConnected => {
                if matches!(s.phase, RelayPhase::DialingRelay) {
                    (RelayCoordinator { phase: RelayPhase::AddressLearning, ..s }, RelayAction::Ignore)
                } else {
                    (s, RelayAction::Ignore)
                }
            },
            RelayEvent::ObservedAddressLearned => {
                if matches!(s.phase, RelayPhase::AddressLearning) {
                    let s2 = RelayCoordinator { learned_observed_addr: true, ..s };
                    if s2.told_relay_observed_addr {
                        RelayCoordinator::branch_exec(s2)
                    } else {
                        (s2, RelayAction::Ignore)
                    }
                } else {
                    (s, RelayAction::Ignore)
                }
            },
            RelayEvent::AddressToldToRelay => {
                if matches!(s.phase, RelayPhase::AddressLearning) {
                    let s2 = RelayCoordinator { told_relay_observed_addr: true, ..s };
                    if s2.learned_observed_addr {
                        RelayCoordinator::branch_exec(s2)
                    } else {
                        (s2, RelayAction::Ignore)
                    }
                } else {
                    (s, RelayAction::Ignore)
                }
            },
            RelayEvent::ReservationAccepted => {
                if s.reservation.is_some() && (matches!(s.phase, RelayPhase::Bootstrapped)
                    || matches!(s.phase, RelayPhase::Listening)
                    || matches!(s.phase, RelayPhase::Established)) {
                    let phase = if matches!(s.phase, RelayPhase::Bootstrapped) {
                        RelayPhase::Listening
                    } else {
                        s.phase
                    };
                    (
                        RelayCoordinator {
                            phase,
                            reservation: Some(ReservationState::Accepted),
                            ever_accepted: true,
                            rerequests: 0,
                            ..s
                        },
                        RelayAction::Ignore,
                    )
                } else {
                    (s, RelayAction::Ignore)
                }
            },
            RelayEvent::ReservationRejected => {
                if s.reservation.is_some() {
                    if !s.ever_accepted {
                        (
                            RelayCoordinator {
                                phase: RelayPhase::Failed,
                                reservation: Some(ReservationState::Rejected),
                                ..s
                            },
                            RelayAction::Fatal(RelayError::ReservationRejected),
                        )
                    } else {
                        RelayCoordinator::demote_exec(s, ReservationState::Rejected)
                    }
                } else {
                    (s, RelayAction::Ignore)
                }
            },
            RelayEvent::ReservationExpired => {
                if matches!(s.reservation, Some(ReservationState::Accepted)) {
                    RelayCoordinator::demote_exec(s, ReservationState::Expired)
                } else {
                    (s, RelayAction::Ignore)
                }
            },
            RelayEvent::RenewalDue => {
                if matches!(s.reservation, Some(ReservationState::Accepted)) {
                    (s, RelayAction::RequestReservation)
                } else {
                    (s, RelayAction::Ignore)
                }
            },
            RelayEvent::InboundCircuitOpened => {
                if matches!(s.reservation, Some(ReservationState::Accepted)) && (matches!(
                    s.phase,
                    RelayPhase::Listening,
                ) || matches!(s.phase, RelayPhase::Established)) {
                    (
                        RelayCoordinator { phase: RelayPhase::Established, ..s },
                        RelayAction::AcceptInbound,
                    )
                } else {
                    (s, RelayAction::Ignore)
                }
            },
            RelayEvent::CircuitEstablished => {
                if matches!(s.phase, RelayPhase::DialingPeer) {
                    (RelayCoordinator { phase: RelayPhase::Established, ..s }, RelayAction::Ignore)
                } else {
                    (s, RelayAction::Ignore)
                }
            },
            RelayEvent::CircuitRefused => {
                if matches!(s.phase, RelayPhase::DialingPeer) {
                    (
                        RelayCoordinator { phase: RelayPhase::Failed, ..s },
                        RelayAction::Fatal(RelayError::CircuitRefused),
                    )
                } else {
                    (s, RelayAction::Ignore)
                }
            },
            RelayEvent::RelayDialFailed => {
                if matches!(s.phase, RelayPhase::DialingRelay) {
                    (RelayCoordinator { phase: RelayPhase::Failed, ..s }, RelayAction::FatalDial)
                } else {
                    (s, RelayAction::Ignore)
                }
            },
        };
        *self = s2;
        action
    }

    /// Executable twin of [`branch_by_role`].
    fn branch_exec(s: RelayCoordinator) -> (r: (RelayCoordinator, RelayAction))
        requires
            s.learned_observed_addr,
            s.told_relay_observed_addr,
        ensures
            r == branch_by_role(s),
    {
        if matches!(s.role, Role::Listener) {
            (
                RelayCoordinator {
                    phase: RelayPhase::Bootstrapped,
                    reservation: Some(ReservationState::Requested),
                    ..s
                },
                RelayAction::RequestReservation,
            )
        } else {
            (
                RelayCoordinator { phase: RelayPhase::DialingPeer, ..s },
                RelayAction::DialPeerViaRelay,
            )
        }
    }

    /// Executable twin of [`demote`].
    fn demote_exec(s: RelayCoordinator, lost: ReservationState) -> (r: (
        RelayCoordinator,
        RelayAction,
    ))
        requires
            s.rerequests <= MAX_RESERVATION_REREQUESTS,
        ensures
            r == demote(s, lost),
    {
        if s.rerequests < MAX_RESERVATION_REREQUESTS {
            (
                RelayCoordinator {
                    phase: RelayPhase::Bootstrapped,
                    reservation: Some(ReservationState::Requested),
                    rerequests: s.rerequests + 1,
                    ..s
                },
                RelayAction::RequestReservation,
            )
        } else {
            (
                RelayCoordinator { phase: RelayPhase::Failed, reservation: Some(lost), ..s },
                RelayAction::Fatal(RelayError::ReservationRejected),
            )
        }
    }
}

/// Both address-learning conditions are required before the bootstrap
/// branches: a coordinator that leaves address learning toward its
/// reservation request or its circuit dial has learned its observed
/// address and told the relay its own.
pub proof fn lemma_both_conditions_before_branching(s: RelayCoordinator, ev: RelayEvent)
    requires
        relay_wf(s),
        s.phase is AddressLearning,
    ensures
        ({
            let s2 = relay_transition(s, ev).0;
            (s2.phase is Bootstrapped || s2.phase is DialingPeer)
                ==> s2.learned_observed_addr && s2.told_relay_observed_addr
        }),
{
}

/// A transition never changes the configured role.
pub proof fn lemma_transition_keeps_role(s: RelayCoordinator, ev: RelayEvent)
    ensures
        relay_transition(s, ev).0.role == s.role,
{
}

/// A rejected reservation request during bootstrap (no reservation was ever
/// accepted) is fatal: the coordinator fails and surfaces the rejection.
pub proof fn lemma_bootstrap_rejection_is_fatal(s: RelayCoordinator)
    requires
        relay_wf(s),
        !(s.phase is Failed),
        s.reservation is Some,
        !s.ever_accepted,
    ensures
        relay_transition(s, RelayEvent::ReservationRejected).0.phase is Failed,
        relay_transition(s, RelayEvent::ReservationRejected).1 == RelayAction::Fatal(
            RelayError::ReservationRejected,
        ),
{
}

/// The state after feeding a whole sequence of events, first element first.
pub open spec fn relay_run(s: RelayCoordinator, evs: Seq<RelayEvent>) -> RelayCoordinator
    decreases evs.len(),
{
    if evs.len() == 0 {
        s
    } else {
        relay_run(relay_transition(s, evs.first()).0, evs.drop_first())
    }
}

/// The failed state is absorbing: no sequence of further events moves a
/// failed coordinator anywhere, so in particular it never reaches the
/// listening state.
pub proof fn lemma_failed_is_absorbing(s: RelayCoordinator, evs: Seq<RelayEvent>)
    requires
        s.phase is Failed,
    ensures
        relay_run(s, evs).phase is Failed,
        !(relay_run(s, evs).phase is Listening),
    decreases evs.len(),
{
    if evs.len() > 0 {
        lemma_failed_is_absorbing(relay_transition(s, evs.first()).0, evs.drop_first());
    }
}

/// A reservation that is not currently accepted never admits relayed
/// inbound traffic: the accept instruction is only ever issued while the
/// reservation stands accepted.
pub proof fn lemma_no_accept_without_reservation(s: RelayCoordinator, ev: RelayEvent)
    requires
        relay_wf(s),
    ensures
        relay_transition(s, ev).1 == RelayAction::AcceptInbound ==> s.reservation == Some(
            ReservationState::Accepted,
        ),
{
}

} // verus!

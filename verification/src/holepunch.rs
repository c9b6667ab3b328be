//! Hole-punch coordinator: upgrading relayed connections to direct ones.
//!
//! Once a relayed connection to a peer exists, both sides exchange candidate
//! direct addresses together with a round-trip-time estimate, arm a
//! synchronized delay derived from that estimate, and dial each other
//! simultaneously when it fires. Success migrates traffic to the direct
//! connection; failure retries up to a fixed ceiling, after which the link
//! stays relay-only for the session — never escalated as an error.
//!
//! At most one in-flight attempt exists per remote peer; that uniqueness is
//! the coordinator's invariant. [`punch_transition`] is the pure transition
//! function and [`HolePunchCoordinator::step`] returns exactly what it says.

use vstd::prelude::*;

use crate::errors::HolePunchError;
use crate::identity::PeerId;

verus! {

/// The fixed ceiling on direct-dial attempts per peer.
pub const MAX_PUNCH_ATTEMPTS: u8 = 3;

/// Where one peer's upgrade attempt stands.
#[derive(Clone, Copy, Debug, PartialEq, Eq, Structural)]
pub enum PunchPhase {
    /// Waiting for the peer's candidate addresses over the relayed channel.
    ExchangingCandidates,
    /// Candidates exchanged; the synchronized dial timer is armed.
    Scheduled,
    /// The simultaneous direct dial is in flight.
    Dialing,
    /// A direct connection carries the traffic now.
    Direct,
    /// Attempts exhausted; the link stays relayed for the session.
    RelayOnly,
}

/// One peer's attempt state.
pub struct PunchAttempt {
    /// The remote peer being upgraded to a direct connection.
    pub peer: PeerId,
    /// Where the attempt stands.
    pub phase: PunchPhase,
    /// Direct dials that have failed so far.
    pub retries: u8,
}

/// The mathematical shape of a [`PunchAttempt`].
pub struct AttemptView {
    pub peer: Seq<u8>,
    pub phase: PunchPhase,
    pub retries: u8,
}

impl View for PunchAttempt {
    type V = AttemptView;

    open spec fn view(&self) -> AttemptView {
        AttemptView { peer: self.peer@, phase: self.phase, retries: self.retries }
    }
}

/// A hole-punch event concerning one peer.
#[derive(Clone, Copy, Debug, PartialEq, Eq, Structural)]
pub enum PunchEvent {
    /// A relayed connection to the peer is up: begin the upgrade.
    RelayedOpened,
    /// The peer's candidate addresses arrived, with the round-trip estimate.
    CandidatesReceived { candidate_count: usize, rtt_ms: u64 },
    /// The synchronized dial timer fired.
    SyncTimerFired,
    /// The simultaneous open produced a direct connection.
    DirectConnected,
    /// The direct dial failed.
    DirectDialFailed,
}

/// What the driver must do after a transition.
#[derive(Clone, Copy, Debug, PartialEq, Eq, Structural)]
pub enum PunchDirective {
    /// Nothing.
    Ignore,
    /// Send our candidate addresses and round-trip estimate over the
    /// relayed channel.
    SendCandidates,
    /// Arm the synchronized dial timer for this many milliseconds.
    ScheduleDial { delay_ms: u64 },
    /// Attempt the simultaneous direct dial now.
    DialNow,
    /// Migrate traffic to the direct connection and close the relayed one.
    MigrateAndCloseRelay,
    /// The upgrade is abandoned for the session: the link stays relayed,
    /// and this names what finally went wrong. Never escalated further.
    GiveUp { reason: HolePunchError },
}

/// Whether some attempt concerns `peer`.
pub open spec fn has_attempt(s: Seq<AttemptView>, peer: Seq<u8>) -> bool {
    exists|i: int| 0 <= i < s.len() && s[i].peer == peer
}

/// The index of the attempt for `peer`; meaningful under uniqueness.
pub open spec fn attempt_index(s: Seq<AttemptView>, peer: Seq<u8>) -> int {
    choose|i: int| 0 <= i < s.len() && s[i].peer == peer
}

/// Attempts are unique per peer and respect the retry ceiling.
pub open spec fn punch_wf(s: Seq<AttemptView>) -> bool {
    &&& forall|i: int, j: int| 0 <= i < j < s.len() ==> s[i].peer != s[j].peer
    &&& forall|i: int| 0 <= i < s.len() ==> s[i].retries <= MAX_PUNCH_ATTEMPTS
}

/// The synchronized delay both sides derive from the round-trip estimate:
/// half of it, so the dials meet in the middle.
pub open spec fn sync_delay(rtt_ms: u64) -> u64 {
    rtt_ms / 2
}

/// A failed attempt either retries the exchange or gives the peer up to
/// relay-only operation, once the fixed ceiling is reached; `cause` names
/// the failure that would be reported.
pub open spec fn after_failure(a: AttemptView, cause: HolePunchError) -> (
    AttemptView,
    PunchDirective,
) {
    if a.retries < MAX_PUNCH_ATTEMPTS {
        (
            AttemptView {
                phase: PunchPhase::ExchangingCandidates,
                retries: (a.retries + 1) as u8,
                ..a
            },
            PunchDirective::SendCandidates,
        )
    } else {
        (
            AttemptView { phase: PunchPhase::RelayOnly, ..a },
            PunchDirective::GiveUp { reason: cause },
        )
    }
}

/// The transition function: the next attempt table and the directive, for
/// one event about one peer. Events about peers with no matching in-flight
/// attempt change nothing.
pub open spec fn punch_transition(s: Seq<AttemptView>, peer: Seq<u8>, ev: PunchEvent) -> (
    Seq<AttemptView>,
    PunchDirective,
) {
    match ev {
        PunchEvent::RelayedOpened => {
            if has_attempt(s, peer) {
                (s, PunchDirective::Ignore)
            } else {
                (
                    s.push(
                        AttemptView { peer, phase: PunchPhase::ExchangingCandidates, retries: 0 },
                    ),
                    PunchDirective::SendCandidates,
                )
            }
        },
        PunchEvent::CandidatesReceived { candidate_count, rtt_ms } => {
            if !has_attempt(s, peer) {
                (s, PunchDirective::Ignore)
            } else {
                let i = attempt_index(s, peer);
                let a = s[i];
                if !(a.phase is ExchangingCandidates) {
                    (s, PunchDirective::Ignore)
                } else if candidate_count == 0 {
                    let (a2, d) = after_failure(a, HolePunchError::NoCandidates);
                    (s.update(i, a2), d)
                } else {
                    (
                        s.update(i, AttemptView { phase: PunchPhase::Scheduled, ..a }),
                        PunchDirective::ScheduleDial { delay_ms: sync_delay(rtt_ms) },
                    )
                }
            }
        },
        PunchEvent::SyncTimerFired => {
            if !has_attempt(s, peer) {
                (s, PunchDirective::Ignore)
            } else {
                let i = attempt_index(s, peer);
                let a = s[i];
                if a.phase is Scheduled {
                    (
                        s.update(i, AttemptView { phase: PunchPhase::Dialing, ..a }),
                        PunchDirective::DialNow,
                    )
                } else {
                    (s, PunchDirective::Ignore)
                }
            }
        },
        PunchEvent::DirectConnected => {
            if !has_attempt(s, peer) {
                (s, PunchDirective::Ignore)
            } else {
                let i = attempt_index(s, peer);
                let a = s[i];
                if a.phase is Dialing || a.phase is Scheduled {
                    (
                        s.update(i, AttemptView { phase: PunchPhase::Direct, ..a }),
                        PunchDirective::MigrateAndCloseRelay,
                    )
                } else {
                    (s, PunchDirective::Ignore)
                }
            }
        },
        PunchEvent::DirectDialFailed => {
            if !has_attempt(s, peer) {
                (s, PunchDirective::Ignore)
            } else {
                let i = attempt_index(s, peer);
                let a = s[i];
                if a.phase is Dialing {
                    let (a2, d) = after_failure(a, HolePunchError::RetriesExhausted);
                    (s.update(i, a2), d)
                } else if a.phase is Scheduled {
                    let (a2, d) = after_failure(a, HolePunchError::SyncFailed);
                    (s.update(i, a2), d)
                } else {
                    (s, PunchDirective::Ignore)
                }
            }
        },
    }
}

/// Under uniqueness, the attempt index is the only index whose entry names
/// the peer.
pub proof fn lemma_attempt_index_is(s: Seq<AttemptView>, peer: Seq<u8>, i: int)
    requires
        punch_wf(s),
        0 <= i < s.len(),
        s[i].peer == peer,
    ensures
        has_attempt(s, peer),
        attempt_index(s, peer) == i,
{
    assert(has_attempt(s, peer));
    let j = attempt_index(s, peer);
    if i < j {
        assert(s[i].peer != s[j].peer);
    } else if j < i {
        assert(s[j].peer != s[i].peer);
    }
}

/// Per-peer attempt table of the hole-punch coordinator. Mutated only
/// through [`Self::step`], and only by the owning event loop.
pub struct HolePunchCoordinator {
    attempts: Vec<PunchAttempt>,
}

impl View for HolePunchCoordinator {
    type V = Seq<AttemptView>;

    closed spec fn view(&self) -> Seq<AttemptView> {
        self.attempts@.map_values(|a: PunchAttempt| a@)
    }
}

impl HolePunchCoordinator {
    /// A coordinator with no attempts yet.
    pub fn new() -> (r: HolePunchCoordinator)
        ensures
            r@ =~= Seq::<AttemptView>::empty(),
            punch_wf(r@),
    {
        HolePunchCoordinator { attempts: Vec::new() }
    }

    /// Finds the index of the attempt for `peer`, if any.
    fn find(&self, peer: &PeerId) -> (r: Option<usize>)
        requires
            punch_wf(self@),
        ensures
            match r {
                Some(i) => i < self@.len() && self@[i as int].peer == peer@ && has_attempt(
                    self@,
                    peer@,
                ) && attempt_index(self@, peer@) == i,
                None => !has_attempt(self@, peer@),
            },
    {
        let n = self.attempts.len();
        let mut i: usize = 0;
        while i < n
            invariant
                n == self.attempts.len(),
                n == self@.len(),
                i <= n,
                punch_wf(self@),
                forall|j: int| 0 <= j < i ==> self@[j].peer != peer@,
            decreases n - i,
        {
            if self.attempts[i].peer.equals(peer) {
                proof {
                    lemma_attempt_index_is(self@, peer@, i as int);
                }
                return Some(i);
            }
            i = i + 1;
        }
        proof {
            assert(forall|j: int| 0 <= j < self@.len() ==> self@[j].peer != peer@);
        }
        None
    }

    /// Feeds one event about one peer through [`punch_transition`] and
    /// returns the directive.
    pub fn step(&mut self, peer: &PeerId, ev: PunchEvent) -> (r: PunchDirective)
        requires
            punch_wf(old(self)@),
        ensures
            punch_wf(final(self)@),
            (final(self)@, r) == punch_transition(old(self)@, peer@, ev),
    {
        let found = self.find(peer);
        match ev {
            PunchEvent::RelayedOpened => {
                match found {
                    Some(_) => PunchDirective::Ignore,
                    None => {
                        let ghost pre = self@;
                        self.attempts.push(
                            PunchAttempt {
                                peer: peer.duplicate(),
                                phase: PunchPhase::ExchangingCandidates,
                                retries: 0,
                            },
                        );
                        proof {
                            assert(self@ =~= pre.push(
                                AttemptView {
                                    peer: peer@,
                                    phase: PunchPhase::ExchangingCandidates,
                                    retries: 0,
                                },
                            ));
                        }
                        PunchDirective::SendCandidates
                    },
                }
            },
            PunchEvent::CandidatesReceived { candidate_count, rtt_ms } => {
                match found {
                    None => PunchDirective::Ignore,
                    Some(i) => {
                        let a = &self.attempts[i];
                        if !matches!(a.phase, PunchPhase::ExchangingCandidates) {
                            PunchDirective::Ignore
                        } else if candidate_count == 0 {
                            self.fail_at(i, HolePunchError::NoCandidates)
                        } else {
                            self.set_phase(i, PunchPhase::Scheduled);
                            PunchDirective::ScheduleDial { delay_ms: rtt_ms / 2 }
                        }
                    },
                }
            },
            PunchEvent::SyncTimerFired => {
                match found {
                    None => PunchDirective::Ignore,
                    Some(i) => {
                        if matches!(self.attempts[i].phase, PunchPhase::Scheduled) {
                            self.set_phase(i, PunchPhase::Dialing);
                            PunchDirective::DialNow
                        } else {
                            PunchDirective::Ignore
                        }
                    },
                }
            },
            PunchEvent::DirectConnected => {
                match found {
                    None => PunchDirective::Ignore,
                    Some(i) => {
                        if matches!(self.attempts[i].phase, PunchPhase::Dialing) || matches!(
                            self.attempts[i].phase,
                            PunchPhase::Scheduled,
                        ) {
                            self.set_phase(i, PunchPhase::Direct);
                            PunchDirective::MigrateAndCloseRelay
                        } else {
                            PunchDirective::Ignore
                        }
                    },
                }
            },
            PunchEvent::DirectDialFailed => {
                match found {
                    None => PunchDirective::Ignore,
                    Some(i) => {
                        if matches!(self.attempts[i].phase, PunchPhase::Dialing) {
                            self.fail_at(i, HolePunchError::RetriesExhausted)
                        } else if matches!(self.attempts[i].phase, PunchPhase::Scheduled) {
                            self.fail_at(i, HolePunchError::SyncFailed)
                        } else {
                            PunchDirective::Ignore
                        }
                    },
                }
            },
        }
    }

    /// Applies [`after_failure`] to the attempt at `i`.
    fn fail_at(&mut self, i: usize, cause: HolePunchError) -> (r: PunchDirective)
        requires
            punch_wf(old(self)@),
            i < old(self)@.len(),
        ensures
            punch_wf(final(self)@),
            final(self)@ =~= old(self)@.update(
                i as int,
                after_failure(old(self)@[i as int], cause).0,
            ),
            r == after_failure(old(self)@[i as int], cause).1,
    {
        let retries = self.attempts[i].retries;
        if retries < MAX_PUNCH_ATTEMPTS {
            let a2 = PunchAttempt {
                peer: self.attempts[i].peer.duplicate(),
                phase: PunchPhase::ExchangingCandidates,
                retries: retries + 1,
            };
            let ghost pre = self@;
            self.attempts.set(i, a2);
            proof {
                assert(self@ =~= pre.update(i as int, after_failure(pre[i as int], cause).0));
            }
            PunchDirective::SendCandidates
        } else {
            let a2 = PunchAttempt {
                peer: self.attempts[i].peer.duplicate(),
                phase: PunchPhase::RelayOnly,
                retries,
            };
            let ghost pre = self@;
            self.attempts.set(i, a2);
            proof {
                assert(self@ =~= pre.update(i as int, after_failure(pre[i as int], cause).0));
            }
            PunchDirective::GiveUp { reason: cause }
        }
    }

    /// Replaces the phase of the attempt at `i`, keeping peer and retries.
    fn set_phase(&mut self, i: usize, phase: PunchPhase)
        requires
            punch_wf(old(self)@),
            i < old(self)@.len(),
        ensures
            punch_wf(final(self)@),
            final(self)@ =~= old(self)@.update(
                i as int,
                AttemptView { phase, ..old(self)@[i as int] },
            ),
    {
        let a2 = PunchAttempt {
            peer: self.attempts[i].peer.duplicate(),
            phase,
            retries: self.attempts[i].retries,
        };
        let ghost pre = self@;
        self.attempts.set(i, a2);
        proof {
            assert(self@ =~= pre.update(i as int, AttemptView { phase, ..pre[i as int] }));
        }
    }
}

/// Success is reported exactly when a direct connection lands while an
/// attempt is dialing (or its timer is armed): the directive to migrate off
/// the relay is issued, and the attempt is recorded as direct.
pub proof fn lemma_direct_connection_reported(s: Seq<AttemptView>, peer: Seq<u8>)
    requires
        punch_wf(s),
        has_attempt(s, peer),
        s[attempt_index(s, peer)].phase is Dialing || s[attempt_index(s, peer)].phase
            is Scheduled,
    ensures
        punch_transition(s, peer, PunchEvent::DirectConnected).1
            == PunchDirective::MigrateAndCloseRelay,
        punch_transition(s, peer, PunchEvent::DirectConnected).0[attempt_index(s, peer)].phase
            is Direct,
{
}

/// A failure beyond the fixed ceiling is never fatal and never retried: the
/// link is marked relay-only and the coordinator moves on.
pub proof fn lemma_retries_bounded(s: Seq<AttemptView>, peer: Seq<u8>)
    requires
        punch_wf(s),
        has_attempt(s, peer),
        s[attempt_index(s, peer)].phase is Dialing,
        s[attempt_index(s, peer)].retries == MAX_PUNCH_ATTEMPTS,
    ensures
        punch_transition(s, peer, PunchEvent::DirectDialFailed).1 == (PunchDirective::GiveUp {
            reason: HolePunchError::RetriesExhausted,
        }),
        punch_transition(s, peer, PunchEvent::DirectDialFailed).0[attempt_index(s, peer)].phase
            is RelayOnly,
{
}

} // verus!

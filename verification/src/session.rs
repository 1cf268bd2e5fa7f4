//! The session manager: negotiating a peer-to-peer session and tracking
//! per-peer status.
//!
//! The wire protocol itself belongs to a transport collaborator.  The
//! manager here is the decision core: a state machine from (state,
//! transport signal) to (state, event), polled once per outer loop tick and
//! never blocking.  The transport performs the I/O and hands back one
//! signal per poll.

use vstd::prelude::*;

verus! {

/// Why a session failed to start.  Fatal: surfaced to the caller before
/// simulation begins.
#[derive(Clone, Copy, PartialEq, Eq, Structural, Debug)]
pub enum ConnectionError {
    /// The signaling endpoint cannot be reached.
    SignalingUnreachable,
    /// The expected peer count was not reached within the bounded timeout.
    PeerCountTimeout,
}

/// What the transport observed since the last poll.
#[derive(Clone, Copy, PartialEq, Eq, Structural, Debug)]
pub enum TransportSignal {
    /// Nothing happened; one poll tick of waiting passed.
    Waited,
    /// A peer joined the room.
    PeerJoined,
    /// A running peer stopped responding.
    PeerInterrupted { handle: usize },
    /// An interrupted peer is responding again.
    PeerResumed { handle: usize },
    /// A peer left for good.
    PeerDisconnected { handle: usize },
    /// The signaling endpoint is unreachable.
    Unreachable,
}

/// What one poll reports to the caller.
#[derive(Clone, Copy, PartialEq, Eq, Structural, Debug)]
pub enum SessionEvent {
    Connecting,
    Running,
    PeerInterrupted { handle: usize },
    PeerResumed { handle: usize },
    PeerDisconnected { handle: usize },
}

/// One peer's health while the session runs.
#[derive(Clone, Copy, PartialEq, Eq, Structural, Debug)]
pub enum PeerStatus {
    Healthy,
    /// Not responding; its inputs are predicted until it resumes.
    Interrupted,
    /// Void for good; its inputs degrade to the deterministic default.
    Disconnected,
}

/// The session manager's state.  The negotiated configuration (peer count,
/// prediction window, input delay) is fixed at initiation.
#[derive(Debug)]
pub struct SessionManager {
    /// How many peers the session waits for.
    pub need: usize,
    /// How many peers have joined so far.
    pub have: usize,
    /// Poll ticks spent waiting for peers.
    pub elapsed_ticks: u64,
    /// Bound on the wait for the full peer count.
    pub timeout_ticks: u64,
    /// Frames the simulation may run ahead of confirmation.
    pub prediction_window: u64,
    /// Frames between a local input event and its application.
    pub input_delay: u64,
    /// Whether the full peer count was reached.
    pub running: bool,
    /// Per-handle peer health, once running.
    pub peers: Vec<PeerStatus>,
}

/// The mathematical model of a [`SessionManager`].
#[verifier::ext_equal]
pub struct SessionModel {
    pub need: usize,
    pub have: usize,
    pub elapsed_ticks: u64,
    pub timeout_ticks: u64,
    pub prediction_window: u64,
    pub input_delay: u64,
    pub running: bool,
    pub peers: Seq<PeerStatus>,
}

impl View for SessionManager {
    type V = SessionModel;

    open spec fn view(&self) -> SessionModel {
        SessionModel {
            need: self.need,
            have: self.have,
            elapsed_ticks: self.elapsed_ticks,
            timeout_ticks: self.timeout_ticks,
            prediction_window: self.prediction_window,
            input_delay: self.input_delay,
            running: self.running,
            peers: self.peers@,
        }
    }
}

/// What one poll does: the successor state and what it reports.  Peer
/// status signals for an unknown handle, or before the session runs, are
/// ignored; a disconnected peer stays void even if the transport later
/// reports it resumed.
pub open spec fn spec_poll(m: SessionModel, signal: TransportSignal) -> (SessionModel, Result<
    SessionEvent,
    ConnectionError,
>) {
    match signal {
        TransportSignal::Unreachable => (m, Err(ConnectionError::SignalingUnreachable)),
        TransportSignal::Waited => {
            if m.running {
                (m, Ok(SessionEvent::Running))
            } else if m.elapsed_ticks + 1 >= m.timeout_ticks {
                (
                    SessionModel { elapsed_ticks: m.timeout_ticks, ..m },
                    Err(ConnectionError::PeerCountTimeout),
                )
            } else {
                (
                    SessionModel { elapsed_ticks: (m.elapsed_ticks + 1) as u64, ..m },
                    Ok(SessionEvent::Connecting),
                )
            }
        },
        TransportSignal::PeerJoined => {
            if m.running {
                (m, Ok(SessionEvent::Running))
            } else if m.have + 1 >= m.need {
                (
                    SessionModel {
                        have: m.need,
                        running: true,
                        peers: Seq::new(m.need as nat, |k: int| PeerStatus::Healthy),
                        ..m
                    },
                    Ok(SessionEvent::Running),
                )
            } else {
                (SessionModel { have: (m.have + 1) as usize, ..m }, Ok(SessionEvent::Connecting))
            }
        },
        TransportSignal::PeerInterrupted { handle } => {
            if m.running && handle < m.peers.len() && m.peers[handle as int]
                != PeerStatus::Disconnected {
                (
                    SessionModel { peers: m.peers.update(handle as int, PeerStatus::Interrupted), ..m },
                    Ok(SessionEvent::PeerInterrupted { handle }),
                )
            } else if m.running {
                (m, Ok(SessionEvent::Running))
            } else {
                (m, Ok(SessionEvent::Connecting))
            }
        },
        TransportSignal::PeerResumed { handle } => {
            if m.running && handle < m.peers.len() && m.peers[handle as int]
                == PeerStatus::Interrupted {
                (
                    SessionModel { peers: m.peers.update(handle as int, PeerStatus::Healthy), ..m },
                    Ok(SessionEvent::PeerResumed { handle }),
                )
            } else if m.running {
                (m, Ok(SessionEvent::Running))
            } else {
                (m, Ok(SessionEvent::Connecting))
            }
        },
        TransportSignal::PeerDisconnected { handle } => {
            if m.running && handle < m.peers.len() {
                (
                    SessionModel {
                        peers: m.peers.update(handle as int, PeerStatus::Disconnected),
                        ..m
                    },
                    Ok(SessionEvent::PeerDisconnected { handle }),
                )
            } else if m.running {
                (m, Ok(SessionEvent::Running))
            } else {
                (m, Ok(SessionEvent::Connecting))
            }
        },
    }
}

/// Starts negotiating a session: the signaling address and room belong to
/// the transport; the core records the expected peer count, the rollback
/// configuration, and the bounded connection timeout.
pub fn initiate(
    player_count: usize,
    prediction_window: u64,
    input_delay: u64,
    timeout_ticks: u64,
) -> (r: SessionManager)
    ensures
        r@ == (SessionModel {
            need: player_count,
            have: 0,
            elapsed_ticks: 0,
            timeout_ticks,
            prediction_window,
            input_delay,
            running: false,
            peers: Seq::empty(),
        }),
{
    let r = SessionManager {
        need: player_count,
        have: 0,
        elapsed_ticks: 0,
        timeout_ticks,
        prediction_window,
        input_delay,
        running: false,
        peers: Vec::new(),
    };
    proof {
        assert(r@ =~= SessionModel {
            need: player_count,
            have: 0,
            elapsed_ticks: 0,
            timeout_ticks,
            prediction_window,
            input_delay,
            running: false,
            peers: Seq::empty(),
        });
    }
    r
}

impl SessionManager {
    /// Applies one transport signal.  Never blocks; called once per outer
    /// loop tick.  The state moves and the event is reported exactly as
    /// [`spec_poll`] says.
    pub fn poll(&mut self, signal: &TransportSignal) -> (r: Result<SessionEvent, ConnectionError>)
        requires
            old(self)@.have <= old(self)@.need,
        ensures
            (final(self)@, r) == spec_poll(old(self)@, *signal),
            final(self)@.have <= final(self)@.need,
    {
        match signal {
            TransportSignal::Unreachable => Err(ConnectionError::SignalingUnreachable),
            TransportSignal::Waited => {
                if self.running {
                    Ok(SessionEvent::Running)
                } else if self.elapsed_ticks >= self.timeout_ticks || self.timeout_ticks
                    - self.elapsed_ticks == 1 {
                    self.elapsed_ticks = self.timeout_ticks;
                    proof {
                        assert(self@ =~= spec_poll(old(self)@, *signal).0);
                    }
                    Err(ConnectionError::PeerCountTimeout)
                } else {
                    self.elapsed_ticks = self.elapsed_ticks + 1;
                    proof {
                        assert(self@ =~= spec_poll(old(self)@, *signal).0);
                    }
                    Ok(SessionEvent::Connecting)
                }
            },
            TransportSignal::PeerJoined => {
                if self.running {
                    Ok(SessionEvent::Running)
                } else if self.need - self.have <= 1 {
                    self.have = self.need;
                    self.running = true;
                    let mut peers: Vec<PeerStatus> = Vec::new();
                    let mut k: usize = 0;
                    while k < self.need
                        invariant
                            k <= self.need,
                            peers@ =~= Seq::new(k as nat, |j: int| PeerStatus::Healthy),
                        decreases self.need - k,
                    {
                        peers.push(PeerStatus::Healthy);
                        k = k + 1;
                        proof {
                            assert(peers@ =~= Seq::new(k as nat, |j: int| PeerStatus::Healthy));
                        }
                    }
                    self.peers = peers;
                    proof {
                        assert(self@ =~= spec_poll(old(self)@, *signal).0);
                    }
                    Ok(SessionEvent::Running)
                } else {
                    self.have = self.have + 1;
                    proof {
                        assert(self@ =~= spec_poll(old(self)@, *signal).0);
                    }
                    Ok(SessionEvent::Connecting)
                }
            },
            TransportSignal::PeerInterrupted { handle } => {
                let h = *handle;
                if self.running && h < self.peers.len() && !matches!(
                    self.peers[h],
                    PeerStatus::Disconnected
                ) {
                    self.peers.set(h, PeerStatus::Interrupted);
                    proof {
                        assert(self@ =~= spec_poll(old(self)@, *signal).0);
                    }
                    Ok(SessionEvent::PeerInterrupted { handle: h })
                } else if self.running {
                    Ok(SessionEvent::Running)
                } else {
                    Ok(SessionEvent::Connecting)
                }
            },
            TransportSignal::PeerResumed { handle } => {
                let h = *handle;
                if self.running && h < self.peers.len() && matches!(
                    self.peers[h],
                    PeerStatus::Interrupted
                ) {
                    self.peers.set(h, PeerStatus::Healthy);
                    proof {
                        assert(self@ =~= spec_poll(old(self)@, *signal).0);
                    }
                    Ok(SessionEvent::PeerResumed { handle: h })
                } else if self.running {
                    Ok(SessionEvent::Running)
                } else {
                    Ok(SessionEvent::Connecting)
                }
            },
            TransportSignal::PeerDisconnected { handle } => {
                let h = *handle;
                if self.running && h < self.peers.len() {
                    self.peers.set(h, PeerStatus::Disconnected);
                    proof {
                        assert(self@ =~= spec_poll(old(self)@, *signal).0);
                    }
                    Ok(SessionEvent::PeerDisconnected { handle: h })
                } else if self.running {
                    Ok(SessionEvent::Running)
                } else {
                    Ok(SessionEvent::Connecting)
                }
            },
        }
    }
}

} // verus!

use rollback_core::session::{
    initiate, ConnectionError, PeerStatus, SessionEvent, TransportSignal,
};

#[test]
fn session_runs_once_all_peers_join() {
    let mut m = initiate(2, 5, 3, 100);
    assert!(!m.running);
    assert_eq!(m.poll(&TransportSignal::Waited), Ok(SessionEvent::Connecting));
    assert_eq!(m.poll(&TransportSignal::PeerJoined), Ok(SessionEvent::Connecting));
    assert_eq!(m.poll(&TransportSignal::PeerJoined), Ok(SessionEvent::Running));
    assert!(m.running);
    assert_eq!(m.peers, vec![PeerStatus::Healthy, PeerStatus::Healthy]);
    assert_eq!(m.prediction_window, 5);
    assert_eq!(m.input_delay, 3);
    // Further polls keep reporting a running session.
    assert_eq!(m.poll(&TransportSignal::Waited), Ok(SessionEvent::Running));
}

#[test]
fn unreachable_signaling_fails_the_start() {
    let mut m = initiate(2, 5, 3, 100);
    assert_eq!(
        m.poll(&TransportSignal::Unreachable),
        Err(ConnectionError::SignalingUnreachable)
    );
}

#[test]
fn peer_count_timeout_is_bounded() {
    let mut m = initiate(2, 5, 3, 3);
    assert_eq!(m.poll(&TransportSignal::PeerJoined), Ok(SessionEvent::Connecting));
    assert_eq!(m.poll(&TransportSignal::Waited), Ok(SessionEvent::Connecting));
    assert_eq!(m.poll(&TransportSignal::Waited), Ok(SessionEvent::Connecting));
    // The third tick of waiting reaches the bound with one peer missing.
    assert_eq!(
        m.poll(&TransportSignal::Waited),
        Err(ConnectionError::PeerCountTimeout)
    );
}

#[test]
fn peer_interruption_and_resume_are_reported() {
    let mut m = initiate(2, 5, 3, 100);
    m.poll(&TransportSignal::PeerJoined).unwrap();
    m.poll(&TransportSignal::PeerJoined).unwrap();
    assert_eq!(
        m.poll(&TransportSignal::PeerInterrupted { handle: 1 }),
        Ok(SessionEvent::PeerInterrupted { handle: 1 })
    );
    assert_eq!(m.peers[1], PeerStatus::Interrupted);
    assert_eq!(
        m.poll(&TransportSignal::PeerResumed { handle: 1 }),
        Ok(SessionEvent::PeerResumed { handle: 1 })
    );
    assert_eq!(m.peers[1], PeerStatus::Healthy);
    // Resuming a healthy peer is a no-op report.
    assert_eq!(
        m.poll(&TransportSignal::PeerResumed { handle: 1 }),
        Ok(SessionEvent::Running)
    );
}

#[test]
fn disconnected_peer_stays_void() {
    let mut m = initiate(2, 5, 3, 100);
    m.poll(&TransportSignal::PeerJoined).unwrap();
    m.poll(&TransportSignal::PeerJoined).unwrap();
    assert_eq!(
        m.poll(&TransportSignal::PeerDisconnected { handle: 0 }),
        Ok(SessionEvent::PeerDisconnected { handle: 0 })
    );
    assert_eq!(m.peers[0], PeerStatus::Disconnected);
    // Neither an interruption nor a resume revives a void peer.
    assert_eq!(
        m.poll(&TransportSignal::PeerResumed { handle: 0 }),
        Ok(SessionEvent::Running)
    );
    assert_eq!(m.peers[0], PeerStatus::Disconnected);
    assert_eq!(
        m.poll(&TransportSignal::PeerInterrupted { handle: 0 }),
        Ok(SessionEvent::Running)
    );
    assert_eq!(m.peers[0], PeerStatus::Disconnected);
}

#[test]
fn peer_signals_before_running_are_ignored() {
    let mut m = initiate(2, 5, 3, 100);
    assert_eq!(
        m.poll(&TransportSignal::PeerInterrupted { handle: 0 }),
        Ok(SessionEvent::Connecting)
    );
    assert_eq!(
        m.poll(&TransportSignal::PeerDisconnected { handle: 0 }),
        Ok(SessionEvent::Connecting)
    );
    assert!(m.peers.is_empty());
}

use arena_rollback::args::{Args, RunMode, DEFAULT_INPUT_DELAY};
use arena_rollback::registry::{duplication, is_checksummed, Duplication, StateKind};
use arena_rollback::session::{
    event_severity, orchestrate, poll_peers, synctest_plan, PlayerSlot, SessionError, SessionEvent,
    SessionState, Severity, DESYNC_INTERVAL,
};

#[test]
fn args_select_run_mode() {
    let d = Args::default();
    assert_eq!(d, Args { synctest: false, input_delay: DEFAULT_INPUT_DELAY });
    assert_eq!(d.input_delay, 2);
    assert_eq!(d.run_mode(), RunMode::PeerToPeer);
    assert_eq!(Args { synctest: true, input_delay: 2 }.run_mode(), RunMode::SyncTest);
}

#[test]
fn waiting_for_peers() {
    let args = Args::default();
    assert_eq!(poll_peers(&args, &vec![]), Ok(None));
    assert_eq!(poll_peers(&args, &vec![PlayerSlot::Local]), Ok(None));
}

#[test]
fn two_peers_start_session() {
    let args = Args { synctest: false, input_delay: 4 };
    let plan = poll_peers(&args, &vec![PlayerSlot::Remote(99), PlayerSlot::Local]).unwrap().unwrap();
    assert_eq!(plan.mode, RunMode::PeerToPeer);
    assert_eq!(plan.num_players, 2);
    assert_eq!(plan.input_delay, 4);
    assert_eq!(plan.desync_interval, DESYNC_INTERVAL);
    assert_eq!(plan.players, (PlayerSlot::Remote(99), PlayerSlot::Local));
}

#[test]
fn bad_peer_sets_are_fatal() {
    let args = Args::default();
    assert_eq!(
        poll_peers(&args, &vec![PlayerSlot::Local, PlayerSlot::Remote(1), PlayerSlot::Remote(2)]),
        Err(SessionError::TooManyPlayers)
    );
    assert_eq!(
        poll_peers(&args, &vec![PlayerSlot::Local, PlayerSlot::Local]),
        Err(SessionError::NotOneLocalOneRemote)
    );
    assert_eq!(
        poll_peers(&args, &vec![PlayerSlot::Remote(1), PlayerSlot::Remote(2)]),
        Err(SessionError::NotOneLocalOneRemote)
    );
}

#[test]
fn synctest_plan_is_local() {
    let plan = synctest_plan(&Args { synctest: true, input_delay: 3 });
    assert_eq!(plan.mode, RunMode::SyncTest);
    assert_eq!(plan.players, (PlayerSlot::Local, PlayerSlot::Local));
    assert_eq!(plan.check_distance, 2);
    assert_eq!(plan.input_delay, 3);
}

#[test]
fn event_severities() {
    assert_eq!(event_severity(&SessionEvent::Disconnected(1)), Severity::Advisory);
    assert_eq!(event_severity(&SessionEvent::NetworkInterrupted(1)), Severity::Advisory);
    assert_eq!(event_severity(&SessionEvent::NetworkResumed(1)), Severity::Advisory);
    let desync = SessionEvent::DesyncDetected { frame: 10, local_checksum: 1, remote_checksum: 2, peer: 3 };
    assert_eq!(event_severity(&desync), Severity::Critical);
}

#[test]
fn registry_classifies_state() {
    assert_eq!(duplication(StateKind::Position), Some(Duplication::Copy));
    assert_eq!(duplication(StateKind::Bullets), Some(Duplication::Clone));
    assert_eq!(duplication(StateKind::Scores), Some(Duplication::Copy));
    assert_eq!(duplication(StateKind::RoundEndTimer), Some(Duplication::Copy));
    assert_eq!(duplication(StateKind::BulletReady), Some(Duplication::Copy));
    assert_eq!(duplication(StateKind::Sprite), None);
    assert_eq!(duplication(StateKind::Camera), None);
    assert!(is_checksummed(StateKind::Position));
    assert!(is_checksummed(StateKind::MoveDir));
    assert!(is_checksummed(StateKind::Bullets));
    assert!(!is_checksummed(StateKind::Scores));
    assert!(!is_checksummed(StateKind::Sprite));
}

#[test]
fn orchestrator_starts_one_session() {
    let args = Args::default();
    let local = vec![PlayerSlot::Local];
    let both = vec![PlayerSlot::Local, PlayerSlot::Remote(5)];
    let (state, start) = orchestrate(&SessionState::Matchmaking, &args, &local).unwrap();
    assert_eq!(state, SessionState::Matchmaking);
    assert_eq!(start, None);
    let (state, start) = orchestrate(&state, &args, &both).unwrap();
    let plan = start.unwrap();
    assert_eq!(state, SessionState::Running(plan));
    assert_eq!(plan.players, (PlayerSlot::Local, PlayerSlot::Remote(5)));
    let (again, none) = orchestrate(&state, &args, &both).unwrap();
    assert_eq!(again, state);
    assert_eq!(none, None);
    assert_eq!(
        orchestrate(&SessionState::Matchmaking, &args, &vec![PlayerSlot::Local, PlayerSlot::Local]),
        Err(SessionError::NotOneLocalOneRemote)
    );
}

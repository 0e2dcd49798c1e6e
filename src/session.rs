use vstd::prelude::*;
use crate::args::{Args, RunMode};

verus! {

/// Players in every session.
pub const NUM_PLAYERS: usize = 2;
/// Ticks between two desync checks in a peer-to-peer session.
pub const DESYNC_INTERVAL: u32 = 1;
/// Ticks that a synctest session rolls back and replays every tick.
pub const SYNCTEST_CHECK_DISTANCE: usize = 2;

/// Who feeds the input stream of one handle.
#[derive(Clone, Copy, Debug, PartialEq, Eq)]
pub enum PlayerSlot {
    Local,
    /// A remote peer, by its identifier.
    Remote(u128),
}

/// What the rollback runtime is configured with before play starts. The slot
/// of handle 0 comes first.
#[derive(Clone, Copy, Debug, PartialEq, Eq)]
pub struct SessionPlan {
    pub mode: RunMode,
    pub num_players: usize,
    pub input_delay: usize,
    /// Ticks between desync checks (peer-to-peer only).
    pub desync_interval: u32,
    /// Ticks replayed every tick (synctest only).
    pub check_distance: usize,
    pub players: (PlayerSlot, PlayerSlot),
}

/// Why a peer-to-peer session cannot start: a fatal configuration error.
#[derive(Clone, Copy, Debug, PartialEq, Eq)]
pub enum SessionError {
    /// More than two peers joined the rendezvous channel.
    TooManyPlayers,
    /// Two joined, but not one local player and one remote peer.
    NotOneLocalOneRemote,
}

pub open spec fn is_local(p: PlayerSlot) -> bool {
    p matches PlayerSlot::Local
}

pub open spec fn p2p_plan(args: Args, a: PlayerSlot, b: PlayerSlot) -> SessionPlan {
    SessionPlan {
        mode: RunMode::PeerToPeer,
        num_players: NUM_PLAYERS,
        input_delay: args.input_delay,
        desync_interval: DESYNC_INTERVAL,
        check_distance: 0,
        players: (a, b),
    }
}

pub open spec fn synctest_plan_spec(args: Args) -> SessionPlan {
    SessionPlan {
        mode: RunMode::SyncTest,
        num_players: NUM_PLAYERS,
        input_delay: args.input_delay,
        desync_interval: 0,
        check_distance: SYNCTEST_CHECK_DISTANCE,
        players: (PlayerSlot::Local, PlayerSlot::Local),
    }
}

/// The synctest session: both handles local, recent ticks replayed every tick.
pub fn synctest_plan(args: &Args) -> (r: SessionPlan)
    ensures
        r == synctest_plan_spec(*args),
{
    SessionPlan {
        mode: RunMode::SyncTest,
        num_players: NUM_PLAYERS,
        input_delay: args.input_delay,
        desync_interval: 0,
        check_distance: SYNCTEST_CHECK_DISTANCE,
        players: (PlayerSlot::Local, PlayerSlot::Local),
    }
}

/// The answer to one poll of the rendezvous channel, given who has joined.
pub open spec fn poll_spec(args: Args, joined: Seq<PlayerSlot>) -> Result<
    Option<SessionPlan>,
    SessionError,
> {
    if joined.len() < NUM_PLAYERS {
        Ok(None)
    } else if joined.len() > NUM_PLAYERS {
        Err(SessionError::TooManyPlayers)
    } else if is_local(joined[0]) != is_local(joined[1]) {
        Ok(Some(p2p_plan(args, joined[0], joined[1])))
    } else {
        Err(SessionError::NotOneLocalOneRemote)
    }
}

/// One poll of the rendezvous channel. While fewer than two players have
/// joined the answer is to wait (`Ok(None)`). With exactly two, one local and
/// one remote, the peer-to-peer session is planned with handles given in
/// the order of joining. Anything else is a fatal error.
pub fn poll_peers(args: &Args, joined: &Vec<PlayerSlot>) -> (r: Result<
    Option<SessionPlan>,
    SessionError,
>)
    ensures
        r == poll_spec(*args, joined@),
{
    if joined.len() < NUM_PLAYERS {
        return Ok(None);
    }
    if joined.len() > NUM_PLAYERS {
        return Err(SessionError::TooManyPlayers);
    }
    let a = joined[0];
    let b = joined[1];
    let a_local = match a {
        PlayerSlot::Local => true,
        PlayerSlot::Remote(_) => false,
    };
    let b_local = match b {
        PlayerSlot::Local => true,
        PlayerSlot::Remote(_) => false,
    };
    if a_local != b_local {
        Ok(
            Some(
                SessionPlan {
                    mode: RunMode::PeerToPeer,
                    num_players: NUM_PLAYERS,
                    input_delay: args.input_delay,
                    desync_interval: DESYNC_INTERVAL,
                    check_distance: 0,
                    players: (a, b),
                },
            ),
        )
    } else {
        Err(SessionError::NotOneLocalOneRemote)
    }
}

/// Where the orchestrator stands: still matchmaking, or with a session under way.
#[derive(Clone, Copy, Debug, PartialEq, Eq)]
pub enum SessionState {
    Matchmaking,
    Running(SessionPlan),
}

/// The orchestrator's step on one poll: once a session runs nothing more is
/// planned; while matchmaking, a poll that plans a session moves to `Running`
/// with that plan and hands it out to be started, exactly once.
pub open spec fn orchestrate_spec(
    state: SessionState,
    args: Args,
    joined: Seq<PlayerSlot>,
) -> Result<(SessionState, Option<SessionPlan>), SessionError> {
    match state {
        SessionState::Running(_) => Ok((state, None)),
        SessionState::Matchmaking => match poll_spec(args, joined) {
            Ok(Some(plan)) => Ok((SessionState::Running(plan), Some(plan))),
            Ok(None) => Ok((SessionState::Matchmaking, None)),
            Err(e) => Err(e),
        },
    }
}

/// One orchestrator step: the next state, and the session to start now, if any.
pub fn orchestrate(state: &SessionState, args: &Args, joined: &Vec<PlayerSlot>) -> (r: Result<
    (SessionState, Option<SessionPlan>),
    SessionError,
>)
    ensures
        r == orchestrate_spec(*state, *args, joined@),
{
    match state {
        SessionState::Running(_) => Ok((*state, None)),
        SessionState::Matchmaking => match poll_peers(args, joined) {
            Ok(Some(plan)) => Ok((SessionState::Running(plan), Some(plan))),
            Ok(None) => Ok((SessionState::Matchmaking, None)),
            Err(e) => Err(e),
        },
    }
}

/// A session is started at most once: a step hands out a plan only while
/// matchmaking, and then leaves the orchestrator running that plan, where
/// every later step hands out none.
pub proof fn lemma_session_starts_once(
    state: SessionState,
    args: Args,
    joined: Seq<PlayerSlot>,
    later: Seq<PlayerSlot>,
)
    ensures
        orchestrate_spec(state, args, joined) matches Ok((next, Some(plan))) ==> state
            == SessionState::Matchmaking && next == SessionState::Running(plan)
            && orchestrate_spec(next, args, later) == Ok::<
            (SessionState, Option<SessionPlan>),
            SessionError,
        >((next, None)),
        state is Running ==> orchestrate_spec(state, args, joined) == Ok::<
            (SessionState, Option<SessionPlan>),
            SessionError,
        >((state, None)),
{
}

/// What the rollback runtime reports between ticks.
#[derive(Clone, Copy, Debug, PartialEq, Eq)]
pub enum SessionEvent {
    Disconnected(u128),
    NetworkInterrupted(u128),
    NetworkResumed(u128),
    /// The peers' digests of one confirmed tick differ.
    DesyncDetected { frame: i32, local_checksum: u128, remote_checksum: u128, peer: u128 },
}

/// How loudly an event is reported; no event stops the match.
#[derive(Clone, Copy, Debug, PartialEq, Eq)]
pub enum Severity {
    Advisory,
    Critical,
}

pub open spec fn severity_spec(e: SessionEvent) -> Severity {
    if e is DesyncDetected {
        Severity::Critical
    } else {
        Severity::Advisory
    }
}

/// A desync is a determinism bug and reported as critical; network trouble is advisory.
pub fn event_severity(e: &SessionEvent) -> (r: Severity)
    ensures
        r == severity_spec(*e),
{
    match e {
        SessionEvent::DesyncDetected { .. } => Severity::Critical,
        _ => Severity::Advisory,
    }
}

} // verus!

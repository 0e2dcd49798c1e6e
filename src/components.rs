use vstd::prelude::*;
use crate::input::Vec2i;

verus! {

/// Length of one round-end cooldown, in microseconds.
pub const ROUND_END_DURATION: u64 = 1_000_000;

/// The identity of a player: handle 0 or 1.
#[derive(Clone, Copy, Debug, PartialEq, Eq)]
pub struct Player {
    pub handle: usize,
}

/// Whether an avatar may fire: cleared by firing, set again once fire is released.
#[derive(Clone, Copy, Debug, PartialEq, Eq)]
pub struct BulletReady(pub bool);

/// The direction an avatar faces, in direction units.
#[derive(Clone, Copy, Debug, PartialEq, Eq)]
pub struct MoveDir(pub Vec2i);

/// A projectile: its position and the direction it flies in.
#[derive(Clone, Copy, Debug, PartialEq, Eq)]
pub struct Bullet {
    pub pos: Vec2i,
    pub move_dir: MoveDir,
}

/// A player's avatar.
#[derive(Clone, Copy, Debug, PartialEq, Eq)]
pub struct Avatar {
    pub player: Player,
    pub pos: Vec2i,
    pub move_dir: MoveDir,
    pub bullet_ready: BulletReady,
}

/// The phase of a round.
#[derive(Clone, Copy, Debug, PartialEq, Eq)]
pub enum RollbackState {
    /// The avatars move and fire.
    InRound,
    /// One avatar was eliminated; the cooldown before the next round runs.
    RoundEnd,
}

/// What may drive the round lifecycle.
#[derive(Clone, Copy, Debug, PartialEq, Eq)]
pub enum RoundEvent {
    /// An avatar was hit by a projectile.
    Elimination,
    /// The round-end timer ran out.
    TimerExpired,
}

/// The transition an event requests from a phase, if any.
pub open spec fn transition_spec(phase: RollbackState, event: RoundEvent) -> Option<RollbackState> {
    match (phase, event) {
        (RollbackState::InRound, RoundEvent::Elimination) => Some(RollbackState::RoundEnd),
        (RollbackState::RoundEnd, RoundEvent::TimerExpired) => Some(RollbackState::InRound),
        _ => None,
    }
}

/// The phase transition that `event` requests in `phase`: an elimination ends
/// a running round, the timer's expiry starts the next one, and nothing else
/// moves the phase.
pub fn transition(phase: RollbackState, event: RoundEvent) -> (r: Option<RollbackState>)
    ensures
        r == transition_spec(phase, event),
{
    match (phase, event) {
        (RollbackState::InRound, RoundEvent::Elimination) => Some(RollbackState::RoundEnd),
        (RollbackState::RoundEnd, RoundEvent::TimerExpired) => Some(RollbackState::InRound),
        _ => None,
    }
}

/// Every transition leaves its phase for the other one: the phases alternate.
pub proof fn lemma_transitions_alternate(phase: RollbackState, event: RoundEvent)
    ensures
        transition_spec(phase, event) != Some(phase),
        transition_spec(phase, event) is Some ==> (phase == RollbackState::InRound
            <==> transition_spec(phase, event) == Some(RollbackState::RoundEnd)),
{
}

/// A repeating countdown, in microseconds.
#[derive(Clone, Copy, Debug, PartialEq, Eq)]
pub struct RoundEndTimer {
    pub duration: u64,
    pub elapsed: u64,
}

impl RoundEndTimer {
    pub open spec fn wf(&self) -> bool {
        0 < self.duration && self.elapsed < self.duration
    }

    /// Whether `delta` more microseconds finish the current period.
    pub open spec fn finishes(&self, delta: u64) -> bool {
        self.elapsed + delta >= self.duration
    }

    /// The timer after `delta` more microseconds; a finished period starts over.
    pub open spec fn ticked(&self, delta: u64) -> RoundEndTimer {
        RoundEndTimer {
            duration: self.duration,
            elapsed: ((self.elapsed + delta) % (self.duration as int)) as u64,
        }
    }

    /// A fresh timer of `duration` microseconds.
    pub fn new(duration: u64) -> (r: RoundEndTimer)
        requires
            duration > 0,
        ensures
            r.wf(),
            r == (RoundEndTimer { duration, elapsed: 0 }),
    {
        RoundEndTimer { duration, elapsed: 0 }
    }

    /// Advances the timer by `delta` microseconds and tells whether a period
    /// finished on the way.
    pub fn tick(&mut self, delta: u64) -> (finished: bool)
        requires
            old(self).wf(),
        ensures
            final(self).wf(),
            *final(self) == old(self).ticked(delta),
            finished == old(self).finishes(delta),
    {
        let left = self.duration - self.elapsed;
        if delta >= left {
            self.elapsed = (delta - left) % self.duration;
            proof {
                let d = old(self).duration as int;
                let e = old(self).elapsed as int;
                assert((e + delta) % d == (delta - (d - e)) % d) by {
                    vstd::arithmetic::div_mod::lemma_mod_add_multiples_vanish(
                        delta - (d - e),
                        d,
                    );
                }
            }
            true
        } else {
            self.elapsed = self.elapsed + delta;
            proof {
                vstd::arithmetic::div_mod::lemma_small_mod(
                    self.elapsed as nat,
                    self.duration as nat,
                );
            }
            false
        }
    }

    /// Starts the current period over.
    pub fn reset(&mut self)
        requires
            old(self).wf(),
        ensures
            final(self).wf(),
            *final(self) == (RoundEndTimer { duration: old(self).duration, elapsed: 0 }),
    {
        self.elapsed = 0;
    }
}

impl Default for RoundEndTimer {
    fn default() -> (r: RoundEndTimer)
        ensures
            r == (RoundEndTimer { duration: ROUND_END_DURATION, elapsed: 0 }),
    {
        RoundEndTimer::new(ROUND_END_DURATION)
    }
}

/// The match score: one point per elimination, to the surviving player.
#[derive(Clone, Copy, Debug, PartialEq, Eq, Default)]
pub struct Scores(pub u32, pub u32);

} // verus!

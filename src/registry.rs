use vstd::prelude::*;

verus! {

/// Every kind of state that the game holds. The first eight are the fields of
/// the simulation state; the last two belong to presentation.
#[derive(Clone, Copy, Debug, PartialEq, Eq)]
pub enum StateKind {
    /// Which avatars are alive, and whose they are.
    Player,
    /// An avatar's position.
    Position,
    /// An avatar's facing.
    MoveDir,
    /// An avatar's fire-readiness.
    BulletReady,
    /// The list of projectiles.
    Bullets,
    /// The round phase.
    Phase,
    RoundEndTimer,
    Scores,
    Sprite,
    Camera,
}

/// How a snapshot duplicates a kind of state.
#[derive(Clone, Copy, Debug, PartialEq, Eq)]
pub enum Duplication {
    /// Bit-copyable: duplicated by a plain copy.
    Copy,
    /// Owns heap data: duplicated by a deep clone.
    Clone,
}

/// The rollback registry: which kinds are snapshotted and restored, and how.
/// Presentation-only kinds take no part.
pub open spec fn duplication_spec(k: StateKind) -> Option<Duplication> {
    match k {
        StateKind::Player => Some(Duplication::Copy),
        StateKind::Position => Some(Duplication::Copy),
        StateKind::MoveDir => Some(Duplication::Copy),
        StateKind::BulletReady => Some(Duplication::Copy),
        StateKind::Bullets => Some(Duplication::Clone),
        StateKind::Phase => Some(Duplication::Copy),
        StateKind::RoundEndTimer => Some(Duplication::Copy),
        StateKind::Scores => Some(Duplication::Copy),
        StateKind::Sprite => None,
        StateKind::Camera => None,
    }
}

/// Whether a kind enters the desync digest of the simulation state: the
/// avatars' presence, positions and facings, and the projectiles.
pub open spec fn checksummed_spec(k: StateKind) -> bool {
    k == StateKind::Player || k == StateKind::Position || k == StateKind::MoveDir || k
        == StateKind::Bullets
}

/// How `k` is duplicated in a snapshot; `None` for presentation-only kinds.
pub fn duplication(k: StateKind) -> (r: Option<Duplication>)
    ensures
        r == duplication_spec(k),
{
    match k {
        StateKind::Player => Some(Duplication::Copy),
        StateKind::Position => Some(Duplication::Copy),
        StateKind::MoveDir => Some(Duplication::Copy),
        StateKind::BulletReady => Some(Duplication::Copy),
        StateKind::Bullets => Some(Duplication::Clone),
        StateKind::Phase => Some(Duplication::Copy),
        StateKind::RoundEndTimer => Some(Duplication::Copy),
        StateKind::Scores => Some(Duplication::Copy),
        StateKind::Sprite => None,
        StateKind::Camera => None,
    }
}

/// Whether `k` enters the desync digest.
pub fn is_checksummed(k: StateKind) -> (r: bool)
    ensures
        r == checksummed_spec(k),
{
    match k {
        StateKind::Player => true,
        StateKind::Position => true,
        StateKind::MoveDir => true,
        StateKind::Bullets => true,
        _ => false,
    }
}

/// Every digested kind is also snapshotted, and nothing presentational is.
pub proof fn lemma_registry_consistent(k: StateKind)
    ensures
        checksummed_spec(k) ==> duplication_spec(k) is Some,
        (k == StateKind::Sprite || k == StateKind::Camera) <==> duplication_spec(k) is None,
{
}

} // verus!

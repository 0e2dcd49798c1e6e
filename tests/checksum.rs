use arena_rollback::checksum::{
    checksum_state, checksum_transform, is_digest_ready, is_finite_bits, TransformBits,
};
use arena_rollback::components::{Bullet, MoveDir, RollbackState, Scores};
use arena_rollback::input::Vec2i;
use arena_rollback::sim::SimState;

fn transform(t: (f32, f32, f32), r: (f32, f32, f32, f32), s: (f32, f32, f32)) -> TransformBits {
    TransformBits {
        translation: (t.0.to_bits(), t.1.to_bits(), t.2.to_bits()),
        rotation: (r.0.to_bits(), r.1.to_bits(), r.2.to_bits(), r.3.to_bits()),
        scale: (s.0.to_bits(), s.1.to_bits(), s.2.to_bits()),
    }
}

#[test]
fn checksum_known_values() {
    let t = transform((1.0, 0.0, 0.0), (0.0, 0.0, 0.0, 1.0), (1.0, 1.0, 1.0));
    assert_eq!(checksum_transform(&t), 1481240354925949941);
    let z = transform((0.0, 0.0, 0.0), (0.0, 0.0, 0.0, 0.0), (0.0, 0.0, 0.0));
    assert_eq!(checksum_transform(&z), 1718617291719999957);
    let u = transform((2.0, 0.0, 0.0), (0.0, 0.0, 0.0, 1.0), (1.0, 1.0, 1.0));
    assert_eq!(checksum_transform(&u), 5324155298073526008);
}

#[test]
fn checksum_is_repeatable() {
    let t = transform((3.5, -2.25, 100.0), (0.0, 0.0, 0.7071, 0.7071), (1.0, 1.0, 1.0));
    assert_eq!(checksum_transform(&t), checksum_transform(&t.clone()));
}

#[test]
fn checksum_ignores_scale() {
    let a = transform((3.5, -2.25, 100.0), (0.0, 0.0, 0.7071, 0.7071), (1.0, 1.0, 1.0));
    let b = transform((3.5, -2.25, 100.0), (0.0, 0.0, 0.7071, 0.7071), (2.0, 0.5, 9.0));
    assert_eq!(checksum_transform(&a), checksum_transform(&b));
}

#[test]
fn checksum_sees_every_included_field() {
    let base = transform((3.5, -2.25, 100.0), (0.0, 0.0, 0.7071, 0.7071), (1.0, 1.0, 1.0));
    let h = checksum_transform(&base);
    let variants = [
        transform((3.6, -2.25, 100.0), (0.0, 0.0, 0.7071, 0.7071), (1.0, 1.0, 1.0)),
        transform((3.5, -2.0, 100.0), (0.0, 0.0, 0.7071, 0.7071), (1.0, 1.0, 1.0)),
        transform((3.5, -2.25, 101.0), (0.0, 0.0, 0.7071, 0.7071), (1.0, 1.0, 1.0)),
        transform((3.5, -2.25, 100.0), (0.1, 0.0, 0.7071, 0.7071), (1.0, 1.0, 1.0)),
        transform((3.5, -2.25, 100.0), (0.0, 0.1, 0.7071, 0.7071), (1.0, 1.0, 1.0)),
        transform((3.5, -2.25, 100.0), (0.0, 0.0, 0.7, 0.7071), (1.0, 1.0, 1.0)),
        transform((3.5, -2.25, 100.0), (0.0, 0.0, 0.7071, 0.7), (1.0, 1.0, 1.0)),
    ];
    for v in variants.iter() {
        assert_ne!(checksum_transform(v), h);
    }
}

#[test]
fn non_finite_components_are_detected() {
    assert!(is_finite_bits(1.5f32.to_bits()));
    assert!(is_finite_bits(0.0f32.to_bits()));
    assert!(!is_finite_bits(f32::NAN.to_bits()));
    assert!(!is_finite_bits(f32::INFINITY.to_bits()));
    assert!(!is_finite_bits(f32::NEG_INFINITY.to_bits()));
    let ok = transform((1.0, 0.0, 0.0), (0.0, 0.0, 0.0, 1.0), (f32::NAN, 1.0, 1.0));
    assert!(is_digest_ready(&ok));
    let bad = transform((1.0, f32::INFINITY, 0.0), (0.0, 0.0, 0.0, 1.0), (1.0, 1.0, 1.0));
    assert!(!is_digest_ready(&bad));
}

#[test]
fn state_digest_known_values() {
    let s = SimState::new();
    assert_eq!(checksum_state(&s), 17744914865533267973);
    let mut t = SimState::new();
    t.p0 = None;
    t.bullets = vec![Bullet { pos: Vec2i { x: 5, y: 6 }, move_dir: MoveDir(Vec2i { x: 0, y: 1000 }) }];
    assert_eq!(checksum_state(&t), 14969538666779215594);
}

#[test]
fn state_digest_tracks_positions_only() {
    let s = SimState::new();
    let mut other = s.clone();
    other.scores = Scores(4, 5);
    other.phase = RollbackState::RoundEnd;
    other.timer.elapsed = 12;
    assert_eq!(checksum_state(&s), checksum_state(&other));
    let mut moved = s.clone();
    moved.p1 = Some(arena_rollback::sim::spawn_avatar(1));
    moved.p1.as_mut().unwrap().pos.y = 1;
    assert_ne!(checksum_state(&s), checksum_state(&moved));
    let mut gone = s.clone();
    gone.p0 = None;
    assert_ne!(checksum_state(&s), checksum_state(&gone));
}

use arena_rollback::components::{
    transition, Avatar, Bullet, BulletReady, MoveDir, Player, RollbackState, RoundEndTimer,
    RoundEvent, Scores,
};
use arena_rollback::args::Args;
use arena_rollback::input::{encode_input, Vec2i};
use arena_rollback::session::{poll_peers, PlayerSlot};
use arena_rollback::sim::{spawn_avatar, SimState, PLAYER_LIMIT, SPAWN_X};

const FIRE: u8 = 16;
const RIGHT: u8 = 8;
const TICK: u64 = 16_667;

fn avatar(handle: usize, x: i64, y: i64) -> Avatar {
    Avatar {
        player: Player { handle },
        pos: Vec2i { x, y },
        move_dir: MoveDir(Vec2i { x: 1000, y: 0 }),
        bullet_ready: BulletReady(true),
    }
}

fn bullet(x: i64, y: i64, dx: i64, dy: i64) -> Bullet {
    Bullet { pos: Vec2i { x, y }, move_dir: MoveDir(Vec2i { x: dx, y: dy }) }
}

#[test]
fn new_match_starts_in_round() {
    let s = SimState::new();
    assert_eq!(s.phase, RollbackState::InRound);
    assert_eq!(s.p0, Some(spawn_avatar(0)));
    assert_eq!(s.p1, Some(spawn_avatar(1)));
    assert_eq!(s.p0.unwrap().pos, Vec2i { x: -SPAWN_X, y: 0 });
    assert_eq!(s.p1.unwrap().pos, Vec2i { x: SPAWN_X, y: 0 });
    assert!(s.bullets.is_empty());
    assert_eq!(s.scores, Scores(0, 0));
}

#[test]
fn hit_within_radii_eliminates_and_scores_survivor() {
    let mut s = SimState::new();
    s.p0 = Some(avatar(0, 0, 0));
    s.bullets = vec![bullet(500_000, 0, 0, 1000)];
    assert!(s.check_eliminations());
    assert_eq!(s.p0, None);
    assert!(s.p1.is_some());
    assert_eq!(s.scores, Scores(0, 1));
    assert_eq!(s.phase, RollbackState::RoundEnd);
    assert!(s.bullets.is_empty());
}

#[test]
fn hit_on_player_one_scores_player_zero() {
    let mut s = SimState::new();
    s.p1 = Some(avatar(1, 0, 0));
    s.bullets = vec![bullet(0, -524_999, 0, 1000), bullet(9_000_000, 0, 1000, 0)];
    assert!(s.check_eliminations());
    assert_eq!(s.p1, None);
    assert!(s.p0.is_some());
    assert_eq!(s.scores, Scores(1, 0));
    assert_eq!(s.bullets, vec![bullet(9_000_000, 0, 1000, 0)]);
}

#[test]
fn miss_at_exact_reach_changes_nothing() {
    let mut s = SimState::new();
    s.p0 = Some(avatar(0, 0, 0));
    s.bullets = vec![bullet(525_000, 0, 0, 1000)];
    let before = s.clone();
    assert!(!s.check_eliminations());
    assert_eq!(s, before);
}

#[test]
fn simultaneous_hits_score_both() {
    let mut s = SimState::new();
    s.bullets = vec![bullet(-SPAWN_X, 100_000, 0, 1000), bullet(SPAWN_X, -100_000, 0, 1000)];
    assert!(s.check_eliminations());
    assert_eq!(s.p0, None);
    assert_eq!(s.p1, None);
    assert_eq!(s.scores, Scores(1, 1));
}

#[test]
fn score_saturates() {
    let mut s = SimState::new();
    s.scores = Scores(0, u32::MAX);
    s.p0 = Some(avatar(0, 0, 0));
    s.bullets = vec![bullet(0, 0, 0, 1000)];
    s.check_eliminations();
    assert_eq!(s.scores, Scores(0, u32::MAX));
}

#[test]
fn p2p_session_fire_and_reload() {
    let args = Args { synctest: false, input_delay: 2 };
    let plan = poll_peers(&args, &vec![PlayerSlot::Local, PlayerSlot::Remote(7)]).unwrap().unwrap();
    assert_eq!(plan.num_players, 2);
    assert_eq!(plan.input_delay, 2);
    assert_eq!(plan.players, (PlayerSlot::Local, PlayerSlot::Remote(7)));

    let mut s = SimState::new();
    assert_eq!(s.phase, RollbackState::InRound);
    assert!(s.p0.unwrap().bullet_ready.0);
    s.step(FIRE, 0, TICK);
    assert_eq!(s.bullets.len(), 1);
    assert!(!s.p0.unwrap().bullet_ready.0);
    for _ in 0..2 {
        s.step(FIRE, 0, TICK);
        assert_eq!(s.bullets.len(), 1);
        assert!(!s.p0.unwrap().bullet_ready.0);
    }
    s.step(0, 0, TICK);
    assert_eq!(s.bullets.len(), 1);
    assert!(s.p0.unwrap().bullet_ready.0);
    s.step(FIRE, 0, TICK);
    assert_eq!(s.bullets.len(), 2);
    assert!(!s.p0.unwrap().bullet_ready.0);
}

#[test]
fn fired_bullet_starts_outside_avatar_and_moves() {
    let mut s = SimState::new();
    s.fire_bullets(FIRE, 0);
    assert_eq!(s.bullets, vec![bullet(-SPAWN_X + 525_000, 0, 1000, 0)]);
    s.advance_bullets();
    assert_eq!(s.bullets, vec![bullet(-SPAWN_X + 875_000, 0, 1000, 0)]);
}

#[test]
fn bullets_leaving_arena_are_removed() {
    let mut s = SimState::new();
    s.bullets = vec![bullet(20_400_000, 0, 1000, 0), bullet(0, 0, 0, -1000)];
    s.advance_bullets();
    assert_eq!(s.bullets, vec![bullet(0, -350_000, 0, -1000)]);
}

#[test]
fn movement_is_clamped_and_turns_avatar() {
    let mut s = SimState::new();
    s.p0 = Some(avatar(0, PLAYER_LIMIT - 10_000, 0));
    s.move_players(RIGHT, encode_input(true, false, false, false, false), TICK);
    assert_eq!(s.p0.unwrap().pos, Vec2i { x: PLAYER_LIMIT, y: 0 });
    assert_eq!(s.p1.unwrap().pos, Vec2i { x: SPAWN_X, y: 116_669 });
    assert_eq!(s.p1.unwrap().move_dir, MoveDir(Vec2i { x: 0, y: 1000 }));
    s.move_players(0, 0, TICK);
    assert_eq!(s.p1.unwrap().move_dir, MoveDir(Vec2i { x: 0, y: 1000 }));
}

#[test]
fn movement_scales_with_tick_length() {
    let up = encode_input(true, false, false, false, false);
    let mut s = SimState::new();
    s.p0 = Some(avatar(0, 0, 0));
    s.step(up, 0, 0);
    assert_eq!(s.p0.unwrap().pos, Vec2i { x: 0, y: 0 });
    assert_eq!(s.p0.unwrap().move_dir, MoveDir(Vec2i { x: 0, y: 1000 }));
    s.step(up, 0, 1_000_000);
    assert_eq!(s.p0.unwrap().pos, Vec2i { x: 0, y: 7_000_000 });
    let mut d = SimState::new();
    d.p0 = Some(avatar(0, 0, 0));
    d.step(encode_input(true, false, false, true, false), 0, 1_000_000);
    assert_eq!(d.p0.unwrap().pos, Vec2i { x: 4_949_000, y: 4_949_000 });
    let mut l = SimState::new();
    l.p0 = Some(avatar(0, 0, 0));
    l.step(encode_input(false, true, true, false, false), 0, 1_000);
    assert_eq!(l.p0.unwrap().pos, Vec2i { x: -4_949, y: -4_949 });
}

#[test]
fn round_end_timer_restarts_round() {
    let mut s = SimState::new();
    s.scores = Scores(3, 4);
    s.phase = RollbackState::RoundEnd;
    s.p0 = None;
    s.bullets = vec![bullet(0, 0, 1000, 0)];
    for _ in 0..3 {
        s.step(FIRE, FIRE, 250_000);
        assert_eq!(s.phase, RollbackState::RoundEnd);
        assert_eq!(s.p0, None);
    }
    s.step(0, 0, 250_000);
    assert_eq!(s.phase, RollbackState::InRound);
    assert_eq!(s.p0.unwrap().pos, Vec2i { x: -SPAWN_X, y: 0 });
    assert_eq!(s.p1.unwrap().pos, Vec2i { x: SPAWN_X, y: 0 });
    assert!(s.bullets.is_empty());
    assert_eq!(s.scores, Scores(3, 4));
}

#[test]
fn elimination_then_cooldown_at_sixty_ticks_per_second() {
    let mut s = SimState::new();
    s.p0 = Some(avatar(0, 0, 0));
    s.bullets = vec![bullet(0, -700_000, 0, 1000)];
    s.step(0, 0, TICK);
    assert_eq!(s.phase, RollbackState::RoundEnd);
    assert_eq!(s.scores, Scores(0, 1));
    for _ in 0..59 {
        s.step(0, 0, TICK);
        assert_eq!(s.phase, RollbackState::RoundEnd);
    }
    s.step(0, 0, TICK);
    assert_eq!(s.phase, RollbackState::InRound);
    assert_eq!(s.p0, Some(spawn_avatar(0)));
    assert_eq!(s.p1, Some(spawn_avatar(1)));
}

#[test]
fn replay_is_deterministic() {
    let inputs: Vec<(u8, u8)> =
        (0..200u32).map(|i| ((i * 7 % 32) as u8, (i * 13 % 32) as u8)).collect();
    let start = SimState::new();
    let mut a = start.clone();
    let mut b = start.clone();
    a.replay(&inputs, TICK);
    b.replay(&inputs, TICK);
    assert_eq!(a, b);
    let mut c = start.clone();
    c.replay(&inputs[..80].to_vec(), TICK);
    c.replay(&inputs[80..].to_vec(), TICK);
    assert_eq!(a, c);
    let mut d = start.clone();
    for &(x, y) in inputs.iter() {
        d.step(x, y, TICK);
    }
    assert_eq!(a, d);
}

#[test]
fn phase_transitions_alternate() {
    assert_eq!(transition(RollbackState::InRound, RoundEvent::Elimination), Some(RollbackState::RoundEnd));
    assert_eq!(transition(RollbackState::RoundEnd, RoundEvent::TimerExpired), Some(RollbackState::InRound));
    assert_eq!(transition(RollbackState::RoundEnd, RoundEvent::Elimination), None);
    assert_eq!(transition(RollbackState::InRound, RoundEvent::TimerExpired), None);
}

#[test]
fn no_elimination_during_cooldown() {
    let mut s = SimState::new();
    s.phase = RollbackState::RoundEnd;
    s.p0 = Some(avatar(0, 0, 0));
    s.bullets = vec![bullet(0, 0, 0, 1000)];
    s.step(0, 0, 1);
    assert_eq!(s.p0, Some(avatar(0, 0, 0)));
    assert_eq!(s.scores, Scores(0, 0));
    assert_eq!(s.bullets, vec![bullet(0, 0, 0, 1000)]);
}

#[test]
fn timer_repeats() {
    let mut t = RoundEndTimer::default();
    assert_eq!(t, RoundEndTimer { duration: 1_000_000, elapsed: 0 });
    assert!(!t.tick(600_000));
    assert!(t.tick(600_000));
    assert_eq!(t.elapsed, 200_000);
    assert!(t.tick(u64::MAX));
    assert!(t.elapsed < t.duration);
    t.reset();
    assert_eq!(t.elapsed, 0);
    let mut u = RoundEndTimer::new(10);
    assert!(u.tick(25));
    assert_eq!(u.elapsed, 5);
}

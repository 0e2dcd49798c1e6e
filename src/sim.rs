use vstd::prelude::*;
use crate::components::{
    transition, transition_spec, Avatar, Bullet, BulletReady, MoveDir, Player, RollbackState,
    RoundEndTimer, RoundEvent, Scores,
};
use crate::input::{decode_direction, decode_fire, direction_of, signal, Vec2i, DIR_UNIT, INPUT_FIRE};

verus! {

// Positions are fixed-point, in micro-units of the arena (1 unit = 1_000_000).
/// Radius of an avatar.
pub const PLAYER_RADIUS: i64 = 500_000;
/// Radius of a projectile.
pub const BULLET_RADIUS: i64 = 25_000;
/// An avatar's centre stays within this distance of the arena's centre on each axis.
pub const PLAYER_LIMIT: i64 = 20_000_000;
/// A projectile leaving this distance of the arena's centre on either axis is gone.
pub const ARENA_HALF: i64 = 20_500_000;
/// How far past an avatar's limit a fresh projectile may stand.
pub const SHOT_BOUND: i64 = 21_000_000;
/// Avatar speed: 7 units per second, that is 7 micro-units per microsecond
/// along a direction of length `DIR_UNIT`.
pub const PLAYER_SPEED: i64 = 7;
/// The longest tick that the movement step takes, in microseconds (1000 s).
pub const MAX_TICK: u64 = 1_000_000_000;
/// Projectile movement per tick, per direction unit.
pub const BULLET_SPEED: i64 = 350;
/// Offset of a fresh projectile from its avatar, per direction unit:
/// `(PLAYER_RADIUS + BULLET_RADIUS) / DIR_UNIT`.
pub const FIRE_OFFSET: i64 = 525;
/// Distance of each spawn point from the arena's centre along the x axis.
pub const SPAWN_X: i64 = 2_000_000;

/// The rollback-significant state of a match.
#[derive(Clone, Debug, PartialEq, Eq)]
pub struct SimState {
    pub phase: RollbackState,
    /// Player 0's avatar, while alive.
    pub p0: Option<Avatar>,
    /// Player 1's avatar, while alive.
    pub p1: Option<Avatar>,
    pub bullets: Vec<Bullet>,
    pub scores: Scores,
    pub timer: RoundEndTimer,
}

/// The mathematical value of a `SimState`.
pub ghost struct SimView {
    pub phase: RollbackState,
    pub p0: Option<Avatar>,
    pub p1: Option<Avatar>,
    pub bullets: Seq<Bullet>,
    pub scores: Scores,
    pub timer: RoundEndTimer,
}

impl View for SimState {
    type V = SimView;

    open spec fn view(&self) -> SimView {
        SimView {
            phase: self.phase,
            p0: self.p0,
            p1: self.p1,
            bullets: self.bullets@,
            scores: self.scores,
            timer: self.timer,
        }
    }
}

pub open spec fn abs_le(v: int, bound: int) -> bool {
    -bound <= v <= bound
}

pub open spec fn dir_ok(d: Vec2i) -> bool {
    abs_le(d.x as int, DIR_UNIT as int) && abs_le(d.y as int, DIR_UNIT as int)
}

pub open spec fn within(p: Vec2i, bound: int) -> bool {
    abs_le(p.x as int, bound) && abs_le(p.y as int, bound)
}

pub open spec fn avatar_ok(a: Option<Avatar>, handle: usize) -> bool {
    a matches Some(av) ==> av.player.handle == handle && within(av.pos, PLAYER_LIMIT as int)
        && dir_ok(av.move_dir.0)
}

pub open spec fn bullets_ok(bs: Seq<Bullet>, bound: int) -> bool {
    forall|i: int| 0 <= i < bs.len() ==> within(#[trigger] bs[i].pos, bound) && dir_ok(bs[i].move_dir.0)
}

/// Well-formedness, with projectiles within `bound` on each axis.
pub open spec fn wf_within(v: SimView, bound: int) -> bool {
    v.timer.wf() && avatar_ok(v.p0, 0) && avatar_ok(v.p1, 1) && bullets_ok(v.bullets, bound)
}

/// Well-formedness of the state between ticks.
pub open spec fn wf(v: SimView) -> bool {
    wf_within(v, ARENA_HALF as int)
}

pub open spec fn clamp(v: int, lim: int) -> int {
    if v < -lim {
        -lim
    } else if v > lim {
        lim
    } else {
        v
    }
}

/// How far a direction component `c` carries an avatar in `delta`
/// microseconds: `c * PLAYER_SPEED * delta / DIR_UNIT`, rounded toward zero.
pub open spec fn displacement(c: int, delta: u64) -> int {
    if c >= 0 {
        c * PLAYER_SPEED * delta / (DIR_UNIT as int)
    } else {
        -((-c) * PLAYER_SPEED * delta / (DIR_UNIT as int))
    }
}

/// An avatar after the movement step of a tick of `delta` microseconds: a
/// non-zero direction moves it at `PLAYER_SPEED`, clamped to the arena, and
/// turns it to face that way.
pub open spec fn moved(a: Avatar, input: u8, delta: u64) -> Avatar {
    let d = direction_of(input);
    if d.x == 0 && d.y == 0 {
        a
    } else {
        Avatar {
            pos: Vec2i {
                x: clamp(a.pos.x + displacement(d.x as int, delta), PLAYER_LIMIT as int) as i64,
                y: clamp(a.pos.y + displacement(d.y as int, delta), PLAYER_LIMIT as int) as i64,
            },
            move_dir: MoveDir(d),
            ..a
        }
    }
}

/// An avatar after the reload step: releasing fire re-arms it.
pub open spec fn reloaded(a: Avatar, input: u8) -> Avatar {
    if !signal(input, INPUT_FIRE) {
        Avatar { bullet_ready: BulletReady(true), ..a }
    } else {
        a
    }
}

pub open spec fn fires(a: Avatar, input: u8) -> bool {
    signal(input, INPUT_FIRE) && a.bullet_ready.0
}

/// The projectile an avatar fires: just outside its radius, in its facing direction.
pub open spec fn shot(a: Avatar) -> Bullet {
    Bullet {
        pos: Vec2i {
            x: (a.pos.x + a.move_dir.0.x * FIRE_OFFSET) as i64,
            y: (a.pos.y + a.move_dir.0.y * FIRE_OFFSET) as i64,
        },
        move_dir: a.move_dir,
    }
}

/// An avatar after the firing step.
pub open spec fn after_fire(a: Avatar, input: u8) -> Avatar {
    if fires(a, input) {
        Avatar { bullet_ready: BulletReady(false), ..a }
    } else {
        a
    }
}

pub open spec fn shots(o: Option<Avatar>, input: u8) -> Seq<Bullet> {
    match o {
        Some(a) => if fires(a, input) {
            seq![shot(a)]
        } else {
            seq![]
        },
        None => seq![],
    }
}

pub open spec fn map_avatar(o: Option<Avatar>, f: spec_fn(Avatar) -> Avatar) -> Option<Avatar> {
    match o {
        Some(a) => Some(f(a)),
        None => None,
    }
}

pub open spec fn move_stage(v: SimView, in0: u8, in1: u8, delta: u64) -> SimView {
    SimView {
        p0: map_avatar(v.p0, |a| moved(a, in0, delta)),
        p1: map_avatar(v.p1, |a| moved(a, in1, delta)),
        ..v
    }
}

pub open spec fn reload_stage(v: SimView, in0: u8, in1: u8) -> SimView {
    SimView {
        p0: map_avatar(v.p0, |a| reloaded(a, in0)),
        p1: map_avatar(v.p1, |a| reloaded(a, in1)),
        ..v
    }
}

/// The firing step: player 0's projectile, if any, is added before player 1's.
pub open spec fn fire_stage(v: SimView, in0: u8, in1: u8) -> SimView {
    SimView {
        p0: map_avatar(v.p0, |a| after_fire(a, in0)),
        p1: map_avatar(v.p1, |a| after_fire(a, in1)),
        bullets: v.bullets + shots(v.p0, in0) + shots(v.p1, in1),
        ..v
    }
}

pub open spec fn advanced(b: Bullet) -> Bullet {
    Bullet {
        pos: Vec2i {
            x: (b.pos.x + b.move_dir.0.x * BULLET_SPEED) as i64,
            y: (b.pos.y + b.move_dir.0.y * BULLET_SPEED) as i64,
        },
        ..b
    }
}

/// Every projectile moved one tick along its direction; those that leave the
/// arena are gone. Order is kept.
pub open spec fn advance_all(bs: Seq<Bullet>) -> Seq<Bullet>
    decreases bs.len(),
{
    if bs.len() == 0 {
        seq![]
    } else {
        let rest = advance_all(bs.drop_last());
        let b = advanced(bs.last());
        if within(b.pos, ARENA_HALF as int) {
            rest.push(b)
        } else {
            rest
        }
    }
}

pub open spec fn advance_stage(v: SimView) -> SimView {
    SimView { bullets: advance_all(v.bullets), ..v }
}

pub open spec fn dist2(a: Vec2i, b: Vec2i) -> int {
    (a.x - b.x) * (a.x - b.x) + (a.y - b.y) * (a.y - b.y)
}

/// A projectile hits an avatar when their centres are closer than the sum of their radii.
pub open spec fn hits(o: Option<Avatar>, b: Bullet) -> bool {
    match o {
        Some(a) => dist2(a.pos, b.pos) < (PLAYER_RADIUS + BULLET_RADIUS) * (PLAYER_RADIUS
            + BULLET_RADIUS),
        None => false,
    }
}

pub open spec fn hit_by_any(o: Option<Avatar>, bs: Seq<Bullet>) -> bool {
    exists|j: int| 0 <= j < bs.len() && hits(o, #[trigger] bs[j])
}

/// The projectiles that hit neither avatar, in order.
pub open spec fn survivors(bs: Seq<Bullet>, a0: Option<Avatar>, a1: Option<Avatar>) -> Seq<Bullet>
    decreases bs.len(),
{
    if bs.len() == 0 {
        seq![]
    } else {
        let rest = survivors(bs.drop_last(), a0, a1);
        if hits(a0, bs.last()) || hits(a1, bs.last()) {
            rest
        } else {
            rest.push(bs.last())
        }
    }
}

/// One more point, saturating at `u32::MAX`.
pub open spec fn inc(n: u32) -> u32 {
    if n < u32::MAX {
        (n + 1) as u32
    } else {
        n
    }
}

/// The elimination check. Every avatar that a projectile touches is removed
/// and its opponent scores one point; each projectile that touches an avatar
/// is removed. If both avatars are hit in one tick, both players score. Any
/// elimination ends the round and restarts the round-end timer.
pub open spec fn eliminate_stage(v: SimView) -> SimView {
    let h0 = hit_by_any(v.p0, v.bullets);
    let h1 = hit_by_any(v.p1, v.bullets);
    if h0 || h1 {
        SimView {
            phase: transition_spec(v.phase, RoundEvent::Elimination).unwrap(),
            p0: if h0 {
                None
            } else {
                v.p0
            },
            p1: if h1 {
                None
            } else {
                v.p1
            },
            bullets: survivors(v.bullets, v.p0, v.p1),
            scores: Scores(
                if h1 {
                    inc(v.scores.0)
                } else {
                    v.scores.0
                },
                if h0 {
                    inc(v.scores.1)
                } else {
                    v.scores.1
                },
            ),
            timer: RoundEndTimer { elapsed: 0, ..v.timer },
        }
    } else {
        v
    }
}

pub open spec fn spawn(handle: usize) -> Avatar {
    Avatar {
        player: Player { handle },
        pos: Vec2i { x: if handle == 0 { (-SPAWN_X) as i64 } else { SPAWN_X }, y: 0 },
        move_dir: MoveDir(Vec2i { x: if handle == 0 { DIR_UNIT } else { (-DIR_UNIT) as i64 }, y: 0 }),
        bullet_ready: BulletReady(true),
    }
}

/// The state at the start of a round: both avatars at their spawn points, no
/// projectiles; the score and the timer carry over.
pub open spec fn round_start(scores: Scores, timer: RoundEndTimer) -> SimView {
    SimView {
        phase: RollbackState::InRound,
        p0: Some(spawn(0)),
        p1: Some(spawn(1)),
        bullets: seq![],
        scores,
        timer,
    }
}

/// The round-end cooldown: the timer advances, and when it runs out the next round starts.
pub open spec fn timeout_stage(v: SimView, delta: u64) -> SimView {
    let t = v.timer.ticked(delta);
    if v.timer.finishes(delta) {
        round_start(v.scores, t)
    } else {
        SimView { timer: t, ..v }
    }
}

/// One simulated tick, `delta` microseconds long, under the two players' inputs.
pub open spec fn step_spec(v: SimView, in0: u8, in1: u8, delta: u64) -> SimView {
    match v.phase {
        RollbackState::InRound => eliminate_stage(
            advance_stage(fire_stage(reload_stage(move_stage(v, in0, in1, delta), in0, in1), in0, in1)),
        ),
        RollbackState::RoundEnd => timeout_stage(v, delta),
    }
}

/// The state after one tick per entry of `inputs`, in order.
pub open spec fn run_spec(v: SimView, inputs: Seq<(u8, u8)>, delta: u64) -> SimView
    decreases inputs.len(),
{
    if inputs.len() == 0 {
        v
    } else {
        let before = run_spec(v, inputs.drop_last(), delta);
        step_spec(before, inputs.last().0, inputs.last().1, delta)
    }
}

proof fn lemma_bullets_ok_weaken(bs: Seq<Bullet>, b1: int, b2: int)
    requires
        bullets_ok(bs, b1),
        b1 <= b2,
    ensures
        bullets_ok(bs, b2),
{
    assert forall|i: int| 0 <= i < bs.len() implies within(#[trigger] bs[i].pos, b2) && dir_ok(
        bs[i].move_dir.0,
    ) by {
        assert(within(bs[i].pos, b1));
    }
}

proof fn lemma_push_bullet_ok(bs: Seq<Bullet>, b: Bullet)
    requires
        bullets_ok(bs, SHOT_BOUND as int),
        within(b.pos, SHOT_BOUND as int),
        dir_ok(b.move_dir.0),
    ensures
        bullets_ok(bs.push(b), SHOT_BOUND as int),
{
    assert forall|i: int| 0 <= i < bs.push(b).len() implies within(
        #[trigger] bs.push(b)[i].pos,
        SHOT_BOUND as int,
    ) && dir_ok(bs.push(b)[i].move_dir.0) by {
        if i < bs.len() {
            assert(bs.push(b)[i] == bs[i]);
        }
    }
}

fn clamp_i64(v: i64, lim: i64) -> (r: i64)
    requires
        lim >= 0,
    ensures
        r == clamp(v as int, lim as int),
{
    if v < -lim {
        -lim
    } else if v > lim {
        lim
    } else {
        v
    }
}

fn inc_score(n: u32) -> (r: u32)
    ensures
        r == inc(n),
{
    if n < u32::MAX {
        n + 1
    } else {
        n
    }
}

fn displace(c: i64, delta: u64) -> (r: i64)
    requires
        abs_le(c as int, DIR_UNIT as int),
        delta <= MAX_TICK,
    ensures
        r == displacement(c as int, delta),
        abs_le(r as int, 7_000_000_000),
{
    let mag: u64 = if c >= 0 {
        c as u64
    } else {
        (-c) as u64
    };
    assert(mag * 7 * delta <= 7_000_000_000_000) by (nonlinear_arith)
        requires
            mag <= 1000,
            delta <= 1_000_000_000,
    ;
    let m: u64 = mag * 7 * delta / 1000;
    assert(m <= 7_000_000_000) by (nonlinear_arith)
        requires
            m == mag * 7 * delta / 1000,
            mag * 7 * delta <= 7_000_000_000_000,
    ;
    if c >= 0 {
        m as i64
    } else {
        -(m as i64)
    }
}

/// The movement step for one avatar, over a tick of `delta` microseconds.
pub fn move_avatar(a: Avatar, input: u8, delta: u64) -> (r: Avatar)
    requires
        within(a.pos, PLAYER_LIMIT as int),
        delta <= MAX_TICK,
    ensures
        r == moved(a, input, delta),
{
    let d = decode_direction(input);
    if d.x == 0 && d.y == 0 {
        a
    } else {
        let x = clamp_i64(a.pos.x + displace(d.x, delta), PLAYER_LIMIT);
        let y = clamp_i64(a.pos.y + displace(d.y, delta), PLAYER_LIMIT);
        Avatar {
            player: a.player,
            pos: Vec2i { x, y },
            move_dir: MoveDir(d),
            bullet_ready: a.bullet_ready,
        }
    }
}

/// The reload step for one avatar.
pub fn reload_avatar(a: Avatar, input: u8) -> (r: Avatar)
    ensures
        r == reloaded(a, input),
{
    if !decode_fire(input) {
        Avatar {
            player: a.player,
            pos: a.pos,
            move_dir: a.move_dir,
            bullet_ready: BulletReady(true),
        }
    } else {
        a
    }
}

/// The projectile that `a` fires.
pub fn shoot(a: Avatar) -> (r: Bullet)
    requires
        within(a.pos, PLAYER_LIMIT as int),
        dir_ok(a.move_dir.0),
    ensures
        r == shot(a),
{
    Bullet {
        pos: Vec2i {
            x: a.pos.x + a.move_dir.0.x * FIRE_OFFSET,
            y: a.pos.y + a.move_dir.0.y * FIRE_OFFSET,
        },
        move_dir: a.move_dir,
    }
}

/// A projectile one tick further along its direction.
pub fn advance_bullet(b: Bullet) -> (r: Bullet)
    requires
        within(b.pos, SHOT_BOUND as int),
        dir_ok(b.move_dir.0),
    ensures
        r == advanced(b),
{
    Bullet {
        pos: Vec2i {
            x: b.pos.x + b.move_dir.0.x * BULLET_SPEED,
            y: b.pos.y + b.move_dir.0.y * BULLET_SPEED,
        },
        move_dir: b.move_dir,
    }
}

fn within_exec(p: Vec2i, bound: i64) -> (r: bool)
    requires
        bound >= 0,
    ensures
        r == within(p, bound as int),
{
    -bound <= p.x && p.x <= bound && -bound <= p.y && p.y <= bound
}

/// Whether projectile `b` touches avatar `o`, if it is alive.
pub fn hits_avatar(o: Option<Avatar>, b: Bullet) -> (r: bool)
    requires
        avatar_ok(o, 0) || avatar_ok(o, 1),
        within(b.pos, ARENA_HALF as int),
    ensures
        r == hits(o, b),
{
    match o {
        Some(a) => {
            assert(within(a.pos, PLAYER_LIMIT as int));
            let dx = a.pos.x - b.pos.x;
            let dy = a.pos.y - b.pos.y;
            assert(0 <= dx * dx <= 41_000_000 * 41_000_000) by (nonlinear_arith)
                requires
                    -41_000_000 <= dx <= 41_000_000,
            ;
            assert(0 <= dy * dy <= 41_000_000 * 41_000_000) by (nonlinear_arith)
                requires
                    -41_000_000 <= dy <= 41_000_000,
            ;
            let reach = PLAYER_RADIUS + BULLET_RADIUS;
            let d2 = dx * dx + dy * dy;
            d2 < reach * reach
        },
        None => false,
    }
}

impl SimState {
    /// The state at the start of a match: the first round, no points, a fresh timer.
    pub fn new() -> (r: SimState)
        ensures
            wf(r@),
            r@ == round_start(Scores(0, 0), RoundEndTimer { duration: crate::components::ROUND_END_DURATION, elapsed: 0 }),
    {
        let r = SimState {
            phase: RollbackState::InRound,
            p0: Some(spawn_avatar(0)),
            p1: Some(spawn_avatar(1)),
            bullets: Vec::new(),
            scores: Scores(0, 0),
            timer: RoundEndTimer::default(),
        };
        assert(r@.bullets =~= Seq::<Bullet>::empty());
        r
    }

    /// Recreates both avatars at their spawn points and removes every projectile.
    pub fn spawn_players(&mut self)
        ensures
            final(self)@ == (SimView { p0: Some(spawn(0)), p1: Some(spawn(1)), bullets: seq![], ..old(self)@ }),
    {
        self.p0 = Some(spawn_avatar(0));
        self.p1 = Some(spawn_avatar(1));
        self.bullets = Vec::new();
        assert(self@.bullets =~= Seq::<Bullet>::empty());
    }

    /// The movement step, over a tick of `delta` microseconds.
    pub fn move_players(&mut self, in0: u8, in1: u8, delta: u64)
        requires
            wf(old(self)@),
            delta <= MAX_TICK,
        ensures
            wf(final(self)@),
            final(self)@ == move_stage(old(self)@, in0, in1, delta),
    {
        if let Some(a) = self.p0 {
            self.p0 = Some(move_avatar(a, in0, delta));
        }
        if let Some(a) = self.p1 {
            self.p1 = Some(move_avatar(a, in1, delta));
        }
    }

    /// The reload step.
    pub fn reload_bullets(&mut self, in0: u8, in1: u8)
        requires
            wf(old(self)@),
        ensures
            wf(final(self)@),
            final(self)@ == reload_stage(old(self)@, in0, in1),
    {
        if let Some(a) = self.p0 {
            self.p0 = Some(reload_avatar(a, in0));
        }
        if let Some(a) = self.p1 {
            self.p1 = Some(reload_avatar(a, in1));
        }
    }

    /// The firing step.
    pub fn fire_bullets(&mut self, in0: u8, in1: u8)
        requires
            wf(old(self)@),
        ensures
            wf_within(final(self)@, SHOT_BOUND as int),
            final(self)@ == fire_stage(old(self)@, in0, in1),
    {
        let ghost v = self@;
        proof {
            lemma_bullets_ok_weaken(v.bullets, ARENA_HALF as int, SHOT_BOUND as int);
        }
        if let Some(a) = self.p0 {
            if a.bullet_ready.0 && decode_fire(in0) {
                let b = shoot(a);
                proof {
                    lemma_push_bullet_ok(self.bullets@, b);
                }
                self.bullets.push(b);
                self.p0 = Some(
                    Avatar {
                        player: a.player,
                        pos: a.pos,
                        move_dir: a.move_dir,
                        bullet_ready: BulletReady(false),
                    },
                );
            }
        }
        assert(self.bullets@ =~= v.bullets + shots(v.p0, in0));
        let ghost mid = self.bullets@;
        if let Some(a) = self.p1 {
            if a.bullet_ready.0 && decode_fire(in1) {
                let b = shoot(a);
                proof {
                    lemma_push_bullet_ok(self.bullets@, b);
                }
                self.bullets.push(b);
                self.p1 = Some(
                    Avatar {
                        player: a.player,
                        pos: a.pos,
                        move_dir: a.move_dir,
                        bullet_ready: BulletReady(false),
                    },
                );
            }
        }
        assert(self.bullets@ =~= mid + shots(v.p1, in1));
        assert(self@ =~= fire_stage(v, in0, in1));
    }

    /// The projectile step: every projectile moves; those that leave the arena are gone.
    pub fn advance_bullets(&mut self)
        requires
            wf_within(old(self)@, SHOT_BOUND as int),
        ensures
            wf(final(self)@),
            final(self)@ == advance_stage(old(self)@),
    {
        let ghost bs = self.bullets@;
        let mut out: Vec<Bullet> = Vec::new();
        let mut i: usize = 0;
        while i < self.bullets.len()
            invariant
                0 <= i <= bs.len(),
                self.bullets@ == bs,
                bullets_ok(bs, SHOT_BOUND as int),
                bullets_ok(out@, ARENA_HALF as int),
                out@ == advance_all(bs.take(i as int)),
            decreases bs.len() - i,
        {
            let b = self.bullets[i];
            let m = advance_bullet(b);
            if within_exec(m.pos, ARENA_HALF) {
                out.push(m);
            }
            assert(bs.take(i + 1).drop_last() =~= bs.take(i as int));
            i = i + 1;
        }
        assert(bs.take(bs.len() as int) =~= bs);
        self.bullets = out;
    }

    /// The elimination check; tells whether an avatar was hit.
    pub fn check_eliminations(&mut self) -> (hit: bool)
        requires
            wf(old(self)@),
            old(self).phase == RollbackState::InRound,
        ensures
            wf(final(self)@),
            final(self)@ == eliminate_stage(old(self)@),
            hit == (hit_by_any(old(self).p0, old(self)@.bullets) || hit_by_any(old(self).p1, old(self)@.bullets)),
    {
        let ghost bs = self.bullets@;
        let mut out: Vec<Bullet> = Vec::new();
        let mut h0 = false;
        let mut h1 = false;
        let mut i: usize = 0;
        while i < self.bullets.len()
            invariant
                0 <= i <= bs.len(),
                self.bullets@ == bs,
                wf(self@),
                bullets_ok(out@, ARENA_HALF as int),
                out@ == survivors(bs.take(i as int), self.p0, self.p1),
                h0 == exists|j: int| 0 <= j < i && hits(self.p0, #[trigger] bs[j]),
                h1 == exists|j: int| 0 <= j < i && hits(self.p1, #[trigger] bs[j]),
            decreases bs.len() - i,
        {
            let b = self.bullets[i];
            let c0 = hits_avatar(self.p0, b);
            let c1 = hits_avatar(self.p1, b);
            if c0 {
                h0 = true;
            }
            if c1 {
                h1 = true;
            }
            if !c0 && !c1 {
                out.push(b);
            }
            assert(bs.take(i + 1).drop_last() =~= bs.take(i as int));
            i = i + 1;
        }
        assert(bs.take(bs.len() as int) =~= bs);
        if h0 || h1 {
            if let Some(p) = transition(self.phase, RoundEvent::Elimination) {
                self.phase = p;
            }
            if h0 {
                self.p0 = None;
                self.scores.1 = inc_score(self.scores.1);
            }
            if h1 {
                self.p1 = None;
                self.scores.0 = inc_score(self.scores.0);
            }
            self.bullets = out;
            self.timer.reset();
        }
        h0 || h1
    }

    /// The round-end step: the timer advances, and when it runs out the next round starts.
    pub fn round_end_timeout(&mut self, delta: u64)
        requires
            wf(old(self)@),
            old(self).phase == RollbackState::RoundEnd,
        ensures
            wf(final(self)@),
            final(self)@ == timeout_stage(old(self)@, delta),
    {
        if self.timer.tick(delta) {
            if let Some(p) = transition(self.phase, RoundEvent::TimerExpired) {
                self.phase = p;
            }
            self.spawn_players();
        }
    }

    /// One simulated tick of `delta` microseconds under the two players' inputs.
    pub fn step(&mut self, in0: u8, in1: u8, delta: u64)
        requires
            wf(old(self)@),
            delta <= MAX_TICK,
        ensures
            wf(final(self)@),
            final(self)@ == step_spec(old(self)@, in0, in1, delta),
    {
        match self.phase {
            RollbackState::InRound => {
                self.move_players(in0, in1, delta);
                self.reload_bullets(in0, in1);
                self.fire_bullets(in0, in1);
                self.advance_bullets();
                self.check_eliminations();
            },
            RollbackState::RoundEnd => {
                self.round_end_timeout(delta);
            },
        }
    }

    /// Runs one tick per entry of `inputs`, in order, each `delta` microseconds long.
    pub fn replay(&mut self, inputs: &Vec<(u8, u8)>, delta: u64)
        requires
            wf(old(self)@),
            delta <= MAX_TICK,
        ensures
            wf(final(self)@),
            final(self)@ == run_spec(old(self)@, inputs@, delta),
    {
        let ghost start = self@;
        let mut i: usize = 0;
        while i < inputs.len()
            invariant
                0 <= i <= inputs.len(),
                delta <= MAX_TICK,
                wf(self@),
                self@ == run_spec(start, inputs@.take(i as int), delta),
            decreases inputs.len() - i,
        {
            let (in0, in1) = inputs[i];
            self.step(in0, in1, delta);
            assert(inputs@.take(i + 1).drop_last() =~= inputs@.take(i as int));
            i = i + 1;
        }
        assert(inputs@.take(inputs.len() as int) =~= inputs@);
    }
}

/// A fresh avatar at the spawn point of player `handle`.
pub fn spawn_avatar(handle: usize) -> (r: Avatar)
    requires
        handle < 2,
    ensures
        r == spawn(handle),
{
    Avatar {
        player: Player { handle },
        pos: Vec2i { x: if handle == 0 { -SPAWN_X } else { SPAWN_X }, y: 0 },
        move_dir: MoveDir(Vec2i { x: if handle == 0 { DIR_UNIT } else { -DIR_UNIT }, y: 0 }),
        bullet_ready: BulletReady(true),
    }
}

/// Replaying one range of ticks from one snapshot twice gives the same state.
pub proof fn lemma_replay_deterministic(
    s1: SimView,
    s2: SimView,
    inputs: Seq<(u8, u8)>,
    delta: u64,
)
    requires
        s1 == s2,
    ensures
        run_spec(s1, inputs, delta) == run_spec(s2, inputs, delta),
{
}

/// Running `a` and then `b` from the state that `a` left gives the state of
/// running `a + b` at once: rolling back to a snapshot and replaying the rest
/// lands where an uninterrupted run does.
pub proof fn lemma_run_split(s: SimView, a: Seq<(u8, u8)>, b: Seq<(u8, u8)>, delta: u64)
    ensures
        run_spec(s, a + b, delta) == run_spec(run_spec(s, a, delta), b, delta),
    decreases b.len(),
{
    if b.len() == 0 {
        assert(a + b =~= a);
    } else {
        lemma_run_split(s, a, b.drop_last(), delta);
        assert((a + b).drop_last() =~= a + b.drop_last());
        assert((a + b).last() == b.last());
    }
}

/// A tick moves the phase only along a legal transition: an elimination ends
/// a running round, the timer's expiry starts the next one with both avatars
/// at their spawn points, and nobody scores during the cooldown.
pub proof fn lemma_step_phase(v: SimView, in0: u8, in1: u8, delta: u64)
    ensures
        step_spec(v, in0, in1, delta).phase != v.phase ==> transition_spec(
            v.phase,
            if v.phase == RollbackState::InRound {
                RoundEvent::Elimination
            } else {
                RoundEvent::TimerExpired
            },
        ) == Some(step_spec(v, in0, in1, delta).phase),
        v.phase == RollbackState::RoundEnd ==> step_spec(v, in0, in1, delta).scores == v.scores,
        v.phase == RollbackState::RoundEnd && step_spec(v, in0, in1, delta).phase
            == RollbackState::InRound ==> v.timer.finishes(delta) && step_spec(
            v,
            in0,
            in1,
            delta,
        ).p0 == Some(spawn(0)) && step_spec(v, in0, in1, delta).p1 == Some(spawn(1)),
{
}

/// Fire is edge-triggered: a ready avatar that fires adds exactly one
/// projectile and is no longer ready; one that is not ready and still holds
/// fire stays unready and adds none; releasing fire makes it ready again.
pub proof fn lemma_fire_rearms_on_release(a: Avatar, input: u8, delta: u64)
    ensures
        ({
            let b = reloaded(moved(a, input, delta), input);
            &&& fires(b, input) ==> shots(Some(b), input).len() == 1 && !after_fire(
                b,
                input,
            ).bullet_ready.0
            &&& signal(input, INPUT_FIRE) && !a.bullet_ready.0 ==> shots(Some(b), input).len()
                == 0 && after_fire(b, input) == b && !b.bullet_ready.0
            &&& !signal(input, INPUT_FIRE) ==> shots(Some(b), input).len() == 0 && after_fire(
                b,
                input,
            ).bullet_ready.0
        }),
{
}

/// A projectile closer to player 0's avatar than the sum of their radii
/// eliminates it at the elimination check, ends the round, and gives player 1
/// exactly one point; player 1's avatar, if untouched, and player 0's score
/// stay.
pub proof fn lemma_hit_eliminates_player0(v: SimView, i: int)
    requires
        v.phase == RollbackState::InRound,
        0 <= i < v.bullets.len(),
        v.p0 is Some,
        dist2(v.p0.unwrap().pos, v.bullets[i].pos) < (PLAYER_RADIUS + BULLET_RADIUS) * (
        PLAYER_RADIUS + BULLET_RADIUS),
        !hit_by_any(v.p1, v.bullets),
        v.scores.1 < u32::MAX,
    ensures
        eliminate_stage(v).p0 is None,
        eliminate_stage(v).p1 == v.p1,
        eliminate_stage(v).scores == Scores(v.scores.0, (v.scores.1 + 1) as u32),
        eliminate_stage(v).phase == RollbackState::RoundEnd,
{
    assert(hits(v.p0, v.bullets[i]));
}

/// A projectile closer to player 1's avatar than the sum of their radii
/// eliminates it at the elimination check, ends the round, and gives player 0
/// exactly one point; player 0's avatar, if untouched, and player 1's score
/// stay.
pub proof fn lemma_hit_eliminates_player1(v: SimView, i: int)
    requires
        v.phase == RollbackState::InRound,
        0 <= i < v.bullets.len(),
        v.p1 is Some,
        dist2(v.p1.unwrap().pos, v.bullets[i].pos) < (PLAYER_RADIUS + BULLET_RADIUS) * (
        PLAYER_RADIUS + BULLET_RADIUS),
        !hit_by_any(v.p0, v.bullets),
        v.scores.0 < u32::MAX,
    ensures
        eliminate_stage(v).p1 is None,
        eliminate_stage(v).p0 == v.p0,
        eliminate_stage(v).scores == Scores((v.scores.0 + 1) as u32, v.scores.1),
        eliminate_stage(v).phase == RollbackState::RoundEnd,
{
    assert(hits(v.p1, v.bullets[i]));
}

} // verus!

use vstd::prelude::*;
use crate::components::{Avatar, Bullet, MoveDir};
use crate::input::Vec2i;
use crate::sim::{SimState, SimView};

verus! {

/// FNV-1a 64-bit offset basis.
pub const FNV_OFFSET: u64 = 0xcbf2_9ce4_8422_2325;
/// FNV-1a 64-bit prime.
pub const FNV_PRIME: u64 = 0x0000_0100_0000_01b3;

/// The IEEE-754 bit patterns of a transform's `f32` components.
#[derive(Clone, Copy, Debug, PartialEq, Eq)]
pub struct TransformBits {
    pub translation: (u32, u32, u32),
    pub rotation: (u32, u32, u32, u32),
    /// Visual only: no part of the digest.
    pub scale: (u32, u32, u32),
}

/// An `f32` bit pattern is finite unless its exponent bits are all set.
pub open spec fn finite_bits(bits: u32) -> bool {
    (bits >> 23u32) & 0xffu32 != 0xffu32
}

/// Every component that enters the digest is finite.
pub open spec fn digest_ready(t: TransformBits) -> bool {
    finite_bits(t.translation.0) && finite_bits(t.translation.1) && finite_bits(t.translation.2)
        && finite_bits(t.rotation.0) && finite_bits(t.rotation.1) && finite_bits(t.rotation.2)
        && finite_bits(t.rotation.3)
}

pub open spec fn fnv_byte(h: u64, b: u32) -> u64 {
    (h ^ (b as u64)).wrapping_mul(FNV_PRIME)
}

/// FNV-1a over the four little-endian bytes of `w`.
pub open spec fn fnv_word(h: u64, w: u32) -> u64 {
    fnv_byte(
        fnv_byte(fnv_byte(fnv_byte(h, w & 0xff), (w >> 8u32) & 0xff), (w >> 16u32) & 0xff),
        (w >> 24u32) & 0xff,
    )
}

/// The digest: FNV-1a over the translation x, y, z and then the rotation
/// x, y, z, w, each as four little-endian bytes. Scale takes no part.
pub open spec fn checksum_spec(t: TransformBits) -> u64 {
    let h = fnv_word(FNV_OFFSET, t.translation.0);
    let h = fnv_word(h, t.translation.1);
    let h = fnv_word(h, t.translation.2);
    let h = fnv_word(h, t.rotation.0);
    let h = fnv_word(h, t.rotation.1);
    let h = fnv_word(h, t.rotation.2);
    fnv_word(h, t.rotation.3)
}

/// Whether an `f32` bit pattern is finite.
pub fn is_finite_bits(bits: u32) -> (r: bool)
    ensures
        r == finite_bits(bits),
{
    (bits >> 23u32) & 0xffu32 != 0xffu32
}

/// Whether every component that enters the digest is finite.
pub fn is_digest_ready(t: &TransformBits) -> (r: bool)
    ensures
        r == digest_ready(*t),
{
    is_finite_bits(t.translation.0) && is_finite_bits(t.translation.1) && is_finite_bits(
        t.translation.2,
    ) && is_finite_bits(t.rotation.0) && is_finite_bits(t.rotation.1) && is_finite_bits(
        t.rotation.2,
    ) && is_finite_bits(t.rotation.3)
}

fn hash_word(h: u64, w: u32) -> (r: u64)
    ensures
        r == fnv_word(h, w),
{
    let h = (h ^ ((w & 0xff) as u64)).wrapping_mul(FNV_PRIME);
    let h = (h ^ (((w >> 8u32) & 0xff) as u64)).wrapping_mul(FNV_PRIME);
    let h = (h ^ (((w >> 16u32) & 0xff) as u64)).wrapping_mul(FNV_PRIME);
    (h ^ (((w >> 24u32) & 0xff) as u64)).wrapping_mul(FNV_PRIME)
}

/// The 64-bit digest of a transform's position and orientation, for desync
/// detection. Non-finite components are refused by the precondition.
pub fn checksum_transform(t: &TransformBits) -> (r: u64)
    requires
        digest_ready(*t),
    ensures
        r == checksum_spec(*t),
{
    let h = hash_word(FNV_OFFSET, t.translation.0);
    let h = hash_word(h, t.translation.1);
    let h = hash_word(h, t.translation.2);
    let h = hash_word(h, t.rotation.0);
    let h = hash_word(h, t.rotation.1);
    let h = hash_word(h, t.rotation.2);
    hash_word(h, t.rotation.3)
}

/// The digest depends on the position and orientation alone: transforms that
/// agree on them have the same digest, whatever their scale.
pub proof fn lemma_checksum_ignores_scale(a: TransformBits, b: TransformBits)
    requires
        a.translation == b.translation,
        a.rotation == b.rotation,
    ensures
        checksum_spec(a) == checksum_spec(b),
{
}

/// One FNV-1a round is injective in its byte: two words that differ only in
/// their last byte, hashed from the same state, give different digests.
pub proof fn lemma_fnv_byte_injective(h: u64, b1: u32, b2: u32)
    requires
        b1 < 256,
        b2 < 256,
        b1 != b2,
    ensures
        fnv_byte(h, b1) != fnv_byte(h, b2),
{
    let x1 = h ^ (b1 as u64);
    let x2 = h ^ (b2 as u64);
    assert(x1 != x2) by (bit_vector)
        requires
            x1 == h ^ (b1 as u64),
            x2 == h ^ (b2 as u64),
            b1 != b2,
            b1 < 256,
            b2 < 256,
    ;
    assert(x1.wrapping_mul(FNV_PRIME) != x2.wrapping_mul(FNV_PRIME)) by (bit_vector)
        requires
            x1 != x2,
    ;
}

/// FNV-1a over the eight little-endian bytes of `w`.
pub open spec fn fnv_u64(h: u64, w: u64) -> u64 {
    let h = fnv_byte(h, (w & 0xff) as u32);
    let h = fnv_byte(h, ((w >> 8u64) & 0xff) as u32);
    let h = fnv_byte(h, ((w >> 16u64) & 0xff) as u32);
    let h = fnv_byte(h, ((w >> 24u64) & 0xff) as u32);
    let h = fnv_byte(h, ((w >> 32u64) & 0xff) as u32);
    let h = fnv_byte(h, ((w >> 40u64) & 0xff) as u32);
    let h = fnv_byte(h, ((w >> 48u64) & 0xff) as u32);
    fnv_byte(h, ((w >> 56u64) & 0xff) as u32)
}

/// An avatar enters the digest as a presence word (0 when gone, 1 when
/// alive), then its position x, y and its facing x, y, each as a
/// two's-complement 64-bit word.
pub open spec fn digest_avatar(h: u64, o: Option<Avatar>) -> u64 {
    match o {
        None => fnv_u64(h, 0),
        Some(a) => {
            let h = fnv_u64(h, 1);
            let h = fnv_u64(h, a.pos.x as u64);
            let h = fnv_u64(h, a.pos.y as u64);
            let h = fnv_u64(h, a.move_dir.0.x as u64);
            fnv_u64(h, a.move_dir.0.y as u64)
        },
    }
}

/// A projectile enters the digest as its position x, y and its direction x, y.
pub open spec fn digest_bullet(h: u64, b: Bullet) -> u64 {
    let h = fnv_u64(h, b.pos.x as u64);
    let h = fnv_u64(h, b.pos.y as u64);
    let h = fnv_u64(h, b.move_dir.0.x as u64);
    fnv_u64(h, b.move_dir.0.y as u64)
}

pub open spec fn digest_bullets(h: u64, bs: Seq<Bullet>) -> u64
    decreases bs.len(),
{
    if bs.len() == 0 {
        h
    } else {
        digest_bullet(digest_bullets(h, bs.drop_last()), bs.last())
    }
}

/// The desync digest of the simulation: FNV-1a over player 0's avatar,
/// player 1's avatar, and then every projectile in order.
pub open spec fn state_digest(v: SimView) -> u64 {
    digest_bullets(digest_avatar(digest_avatar(FNV_OFFSET, v.p0), v.p1), v.bullets)
}

fn hash_u64(h: u64, w: u64) -> (r: u64)
    ensures
        r == fnv_u64(h, w),
{
    let h = (h ^ ((w & 0xff) as u32 as u64)).wrapping_mul(FNV_PRIME);
    let h = (h ^ (((w >> 8u64) & 0xff) as u32 as u64)).wrapping_mul(FNV_PRIME);
    let h = (h ^ (((w >> 16u64) & 0xff) as u32 as u64)).wrapping_mul(FNV_PRIME);
    let h = (h ^ (((w >> 24u64) & 0xff) as u32 as u64)).wrapping_mul(FNV_PRIME);
    let h = (h ^ (((w >> 32u64) & 0xff) as u32 as u64)).wrapping_mul(FNV_PRIME);
    let h = (h ^ (((w >> 40u64) & 0xff) as u32 as u64)).wrapping_mul(FNV_PRIME);
    let h = (h ^ (((w >> 48u64) & 0xff) as u32 as u64)).wrapping_mul(FNV_PRIME);
    (h ^ (((w >> 56u64) & 0xff) as u32 as u64)).wrapping_mul(FNV_PRIME)
}

fn hash_avatar(h: u64, o: Option<Avatar>) -> (r: u64)
    ensures
        r == digest_avatar(h, o),
{
    match o {
        None => hash_u64(h, 0),
        Some(a) => {
            let h = hash_u64(h, 1);
            let h = hash_u64(h, a.pos.x as u64);
            let h = hash_u64(h, a.pos.y as u64);
            let h = hash_u64(h, a.move_dir.0.x as u64);
            hash_u64(h, a.move_dir.0.y as u64)
        },
    }
}

fn hash_bullet(h: u64, b: Bullet) -> (r: u64)
    ensures
        r == digest_bullet(h, b),
{
    let h = hash_u64(h, b.pos.x as u64);
    let h = hash_u64(h, b.pos.y as u64);
    let h = hash_u64(h, b.move_dir.0.x as u64);
    hash_u64(h, b.move_dir.0.y as u64)
}

/// The 64-bit desync digest of the simulation's positions and facings.
pub fn checksum_state(s: &SimState) -> (r: u64)
    ensures
        r == state_digest(s@),
{
    let mut h = hash_avatar(hash_avatar(FNV_OFFSET, s.p0), s.p1);
    let ghost h0 = h;
    let ghost bs = s.bullets@;
    let mut i: usize = 0;
    while i < s.bullets.len()
        invariant
            0 <= i <= bs.len(),
            s.bullets@ == bs,
            h == digest_bullets(h0, bs.take(i as int)),
        decreases bs.len() - i,
    {
        h = hash_bullet(h, s.bullets[i]);
        assert(bs.take(i + 1).drop_last() =~= bs.take(i as int));
        i = i + 1;
    }
    assert(bs.take(bs.len() as int) =~= bs);
    h
}

/// The part of an avatar that enters the digest: its presence, position and facing.
pub open spec fn digested_part(o: Option<Avatar>) -> Option<(Vec2i, MoveDir)> {
    match o {
        Some(a) => Some((a.pos, a.move_dir)),
        None => None,
    }
}

/// The digest is a function of the positions, facings and presence of the
/// avatars and projectiles alone: states that agree on those digest alike,
/// whatever their phase, score, timer or fire-readiness.
pub proof fn lemma_state_digest_ignores_rest(v: SimView, w: SimView)
    requires
        digested_part(v.p0) == digested_part(w.p0),
        digested_part(v.p1) == digested_part(w.p1),
        v.bullets == w.bullets,
    ensures
        state_digest(v) == state_digest(w),
{
    assert(digest_avatar(FNV_OFFSET, v.p0) == digest_avatar(FNV_OFFSET, w.p0));
    assert(digest_avatar(digest_avatar(FNV_OFFSET, v.p0), v.p1) == digest_avatar(
        digest_avatar(FNV_OFFSET, w.p0),
        w.p1,
    ));
}

} // verus!

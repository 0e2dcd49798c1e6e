use vstd::prelude::*;

verus! {

/// Bit set while the "up" signal is held.
pub const INPUT_UP: u8 = 1;
/// Bit set while the "down" signal is held.
pub const INPUT_DOWN: u8 = 2;
/// Bit set while the "left" signal is held.
pub const INPUT_LEFT: u8 = 4;
/// Bit set while the "right" signal is held.
pub const INPUT_RIGHT: u8 = 8;
/// Bit set while the "fire" signal is held.
pub const INPUT_FIRE: u8 = 16;
/// Every bit that a well-formed encoding may carry.
pub const INPUT_MASK: u8 = 31;

/// Length of a unit direction on one axis, in direction units.
pub const DIR_UNIT: i64 = 1000;
/// Each component of a diagonal direction: `DIR_UNIT / sqrt(2)`, rounded down,
/// so that diagonal movement is no faster than movement along an axis.
pub const DIR_DIAG: i64 = 707;

/// A fixed-point 2D vector of integers.
#[derive(Clone, Copy, Debug, PartialEq, Eq)]
pub struct Vec2i {
    pub x: i64,
    pub y: i64,
}

pub open spec fn bit_set(input: u8, bit: u8) -> bool {
    input & bit != 0
}

/// An encoding holding any bit outside the five signals is malformed.
pub open spec fn well_formed_input(input: u8) -> bool {
    input & !INPUT_MASK == 0
}

/// The signal `bit` as the decoder reads it: malformed encodings read as all released.
pub open spec fn signal(input: u8, bit: u8) -> bool {
    well_formed_input(input) && bit_set(input, bit)
}

/// -1, 0 or 1: the direction of one axis given its two opposing signals.
pub open spec fn axis(neg: bool, pos: bool) -> int {
    (if pos { 1int } else { 0int }) - (if neg { 1int } else { 0int })
}

pub open spec fn axis_x(input: u8) -> int {
    axis(signal(input, INPUT_LEFT), signal(input, INPUT_RIGHT))
}

pub open spec fn axis_y(input: u8) -> int {
    axis(signal(input, INPUT_DOWN), signal(input, INPUT_UP))
}

/// `a * len` for an axis value `a` of -1, 0 or 1.
pub open spec fn scaled(a: int, len: int) -> int {
    if a > 0 {
        len
    } else if a < 0 {
        -len
    } else {
        0
    }
}

/// The movement direction of an encoding: zero, a unit vector along an axis,
/// or a diagonal with both components `DIR_DIAG`.
pub open spec fn direction_of(input: u8) -> Vec2i {
    let ax = axis_x(input);
    let ay = axis_y(input);
    let len: int = if ax != 0 && ay != 0 { DIR_DIAG as int } else { DIR_UNIT as int };
    Vec2i { x: scaled(ax, len) as i64, y: scaled(ay, len) as i64 }
}

/// Encodes the local player's signals into one byte.
pub fn encode_input(up: bool, down: bool, left: bool, right: bool, fire: bool) -> (r: u8)
    ensures
        well_formed_input(r),
        signal(r, INPUT_UP) == up,
        signal(r, INPUT_DOWN) == down,
        signal(r, INPUT_LEFT) == left,
        signal(r, INPUT_RIGHT) == right,
        signal(r, INPUT_FIRE) == fire,
{
    let r: u8 = (if up { INPUT_UP } else { 0 }) | (if down { INPUT_DOWN } else { 0 }) | (if left {
        INPUT_LEFT
    } else {
        0
    }) | (if right { INPUT_RIGHT } else { 0 }) | (if fire { INPUT_FIRE } else { 0 });
    assert(well_formed_input(r) && (bit_set(r, INPUT_UP) == up) && (bit_set(r, INPUT_DOWN)
        == down) && (bit_set(r, INPUT_LEFT) == left) && (bit_set(r, INPUT_RIGHT) == right)
        && (bit_set(r, INPUT_FIRE) == fire)) by (bit_vector)
        requires
            r == (if up { 1u8 } else { 0u8 }) | (if down { 2u8 } else { 0u8 }) | (if left {
                4u8
            } else {
                0u8
            }) | (if right { 8u8 } else { 0u8 }) | (if fire { 16u8 } else { 0u8 }),
    ;
    r
}

/// Reads one signal of an encoding; malformed encodings read as all released.
pub fn input_signal(input: u8, bit: u8) -> (r: bool)
    ensures
        r == signal(input, bit),
{
    input & !INPUT_MASK == 0 && input & bit != 0
}

/// Decodes the fire signal of an encoding.
pub fn decode_fire(input: u8) -> (r: bool)
    ensures
        r == signal(input, INPUT_FIRE),
{
    input_signal(input, INPUT_FIRE)
}

/// Decodes the movement direction of an encoding. Opposing signals cancel on
/// their axis; a diagonal has both components of length `DIR_DIAG`.
pub fn decode_direction(input: u8) -> (r: Vec2i)
    ensures
        r == direction_of(input),
{
    let mut ax: i64 = 0;
    let mut ay: i64 = 0;
    if input_signal(input, INPUT_RIGHT) {
        ax = ax + 1;
    }
    if input_signal(input, INPUT_LEFT) {
        ax = ax - 1;
    }
    if input_signal(input, INPUT_UP) {
        ay = ay + 1;
    }
    if input_signal(input, INPUT_DOWN) {
        ay = ay - 1;
    }
    let len: i64 = if ax != 0 && ay != 0 { DIR_DIAG } else { DIR_UNIT };
    let x: i64 = if ax > 0 { len } else if ax < 0 { -len } else { 0 };
    let y: i64 = if ay > 0 { len } else if ay < 0 { -len } else { 0 };
    Vec2i { x, y }
}

/// Opposing signals held together cancel: the decoded direction is zero on that axis.
pub proof fn lemma_opposing_signals_cancel(input: u8)
    ensures
        signal(input, INPUT_LEFT) && signal(input, INPUT_RIGHT) ==> direction_of(input).x == 0,
        signal(input, INPUT_UP) && signal(input, INPUT_DOWN) ==> direction_of(input).y == 0,
{
}

} // verus!

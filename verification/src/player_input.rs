//! How the keys a player holds steer their ship: the signals they raise and
//! the controls they set.

use vstd::prelude::*;
use crate::signals::SignalValue;

verus! {

/// How a player's keys steer their ship.
#[derive(Debug, Clone, Copy, PartialEq, Eq, Structural)]
pub enum PlayerBehavior {
    /// Forward and back thrust, left and right turn
    Tank,
    /// The keys give the direction to face and move in
    Directional,
}

/// Which of the four movement keys are held: W, S, A and D.
#[derive(Debug, Clone, Copy, PartialEq, Eq, Structural)]
pub struct MovementKeys {
    pub forward: bool,
    pub back: bool,
    pub left: bool,
    pub right: bool,
}

/// The bits of the `f32` value `1.0`.
pub const ONE_BITS: u32 = 0x3f80_0000u32;

/// The bits of the `f32` value `-1.0`.
pub const MINUS_ONE_BITS: u32 = 0xbf80_0000u32;

/// The bits of the `f32` value `0.0`.
pub const ZERO_BITS: u32 = 0u32;

/// One axis from a pair of opposite keys: `1` for the positive key alone,
/// `-1` for the negative key alone, `0` for both or neither.
pub open spec fn spec_axis(positive: bool, negative: bool) -> int {
    (if positive { 1int } else { 0int }) - (if negative { 1int } else { 0int })
}

/// One axis where the first key wins: `1` while the positive key is held,
/// else `-1` while the negative one is, else `0`.
pub open spec fn spec_priority_axis(positive: bool, negative: bool) -> int {
    if positive { 1 } else if negative { -1 } else { 0 }
}

/// The bits of the `f32` value of `-1`, `0` or `1`.
pub open spec fn spec_unit_bits(v: int) -> u32 {
    if v > 0 { ONE_BITS } else if v < 0 { MINUS_ONE_BITS } else { ZERO_BITS }
}

/// A pair of opposite keys gives `1` for the first key alone, `-1` for the
/// second alone and `0` otherwise, and swapping the keys negates it; where
/// the first key wins, it gives `1` while the first key is held, `-1` while
/// only the second is, and `0` while neither is.
pub proof fn law_axes(p: bool, n: bool)
    ensures
        spec_axis(p, n) == -spec_axis(n, p),
        spec_axis(p, n) == 1 <==> p && !n,
        spec_axis(p, n) == -1 <==> !p && n,
        spec_axis(p, n) == 0 <==> p == n,
        spec_priority_axis(p, n) == 1 <==> p,
        spec_priority_axis(p, n) == -1 <==> !p && n,
        spec_priority_axis(p, n) == 0 <==> !p && !n,
{
}

/// The signal value of a direction is the `f32` zero for `0` and otherwise
/// a float of magnitude one (exponent 127, no mantissa bits) whose sign bit
/// is set exactly for a negative direction.
pub proof fn law_unit_bits(v: int)
    ensures
        v == 0 ==> spec_unit_bits(v) == 0u32,
        v != 0 ==> (spec_unit_bits(v) >> 23u32) & 0xffu32 == 127u32,
        v != 0 ==> spec_unit_bits(v) & 0x007f_ffffu32 == 0u32,
        v != 0 ==> (spec_unit_bits(v) >> 31u32 == 1u32 <==> v < 0),
{
    assert((ONE_BITS >> 23u32) & 0xffu32 == 127u32 && ONE_BITS & 0x007f_ffffu32 == 0u32 && ONE_BITS
        >> 31u32 == 0u32) by (bit_vector)
        requires
            ONE_BITS == 0x3f80_0000u32,
    ;
    assert((MINUS_ONE_BITS >> 23u32) & 0xffu32 == 127u32 && MINUS_ONE_BITS & 0x007f_ffffu32 == 0u32
        && MINUS_ONE_BITS >> 31u32 == 1u32) by (bit_vector)
        requires
            MINUS_ONE_BITS == 0xbf80_0000u32,
    ;
}


/// The direction the keys point to in directional mode, as `(x, y)`: D is
/// right, A left, W up and S down.
pub fn directional_axis(keys: MovementKeys) -> (r: (i8, i8))
    ensures
        r.0 == spec_axis(keys.right, keys.left),
        r.1 == spec_axis(keys.forward, keys.back),
{
    let mut x: i8 = 0;
    let mut y: i8 = 0;
    if keys.forward {
        y = y + 1;
    }
    if keys.back {
        y = y - 1;
    }
    if keys.left {
        x = x - 1;
    }
    if keys.right {
        x = x + 1;
    }
    (x, y)
}

/// The facing and movement signals a player raises, in that order.
///
/// In tank mode, W thrusts forward and S back (W wins), and A turns one way
/// and D the other, the two cancelling out; no turn leaves facing off. In
/// directional mode, held keys that do not cancel out face the ship along
/// `direction` (the key direction turned into the ship's frame and made
/// unit length, as the bits of its `f32` components) and move it at full
/// thrust; otherwise both signals are off.
pub fn player_signals(behavior: PlayerBehavior, keys: MovementKeys, direction: (u32, u32)) -> (r: (SignalValue, SignalValue))
    ensures
        behavior == PlayerBehavior::Tank ==> {
            let turn = spec_axis(keys.left, keys.right);
            &&& r.0 == (if turn == 0 {
                SignalValue::Off
            } else {
                SignalValue::Scalar(spec_unit_bits(turn))
            })
            &&& r.1 == SignalValue::Scalar(spec_unit_bits(spec_priority_axis(keys.forward, keys.back)))
        },
        behavior == PlayerBehavior::Directional ==> {
            if spec_axis(keys.right, keys.left) != 0 || spec_axis(keys.forward, keys.back) != 0 {
                r == (SignalValue::Vector(direction.0, direction.1), SignalValue::Scalar(ONE_BITS))
            } else {
                r == (SignalValue::Off, SignalValue::Off)
            }
        },
{
    match behavior {
        PlayerBehavior::Tank => {
            let thrust = if keys.forward {
                ONE_BITS
            } else if keys.back {
                MINUS_ONE_BITS
            } else {
                ZERO_BITS
            };
            let facing = if keys.left && !keys.right {
                SignalValue::Scalar(ONE_BITS)
            } else if keys.right && !keys.left {
                SignalValue::Scalar(MINUS_ONE_BITS)
            } else {
                SignalValue::Off
            };
            (facing, SignalValue::Scalar(thrust))
        },
        PlayerBehavior::Directional => {
            let (x, y) = directional_axis(keys);
            if x != 0 || y != 0 {
                (SignalValue::new_vector(direction.0, direction.1), SignalValue::Scalar(ONE_BITS))
            } else {
                (SignalValue::Off, SignalValue::Off)
            }
        },
    }
}

/// The controls a player sets in tank mode, as `(throttle, turn)`: W
/// throttles forward (`1`) and S back (`-1`); A turns full left (`-1`) and
/// D full right (`1`). In each pair the first key (W, A) wins.
pub fn tank_controls(keys: MovementKeys) -> (r: (i8, i8))
    ensures
        r.0 == spec_priority_axis(keys.forward, keys.back),
        r.1 == -spec_priority_axis(keys.left, keys.right),
{
    let throttle: i8 = if keys.forward {
        1
    } else if keys.back {
        -1
    } else {
        0
    };
    let turn: i8 = if keys.left {
        -1
    } else if keys.right {
        1
    } else {
        0
    };
    (throttle, turn)
}

/// The throttle a player sets in directional mode: full while the held
/// keys point somewhere, none otherwise.
pub fn directional_throttle(keys: MovementKeys) -> (r: i8)
    ensures
        r == (if spec_axis(keys.right, keys.left) != 0 || spec_axis(keys.forward, keys.back) != 0 {
            1int
        } else {
            0int
        }),
{
    let (x, y) = directional_axis(keys);
    if x != 0 || y != 0 {
        1
    } else {
        0
    }
}

} // verus!

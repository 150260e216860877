//! Places in the world, in fixed point.

use vstd::prelude::*;

verus! {

/// How many position steps make one world unit. A speed of one unit per
/// second moves one step per nanosecond.
pub const STEPS_PER_UNIT: i64 = 1_000_000_000;

/// A place in the plane, counted in steps of a billionth of a world unit.
#[derive(Clone, Copy, Debug, PartialEq, Eq, Structural)]
pub struct Position {
    pub x: i64,
    pub y: i64,
}

/// The coordinate nearest to `v` that an `i64` holds.
pub open spec fn clamped(v: int) -> i64 {
    if v < i64::MIN {
        i64::MIN
    } else if v > i64::MAX {
        i64::MAX
    } else {
        v as i64
    }
}

/// One coordinate moved by `by` steps, stopping at the edge of the world.
pub fn shift_coordinate(coordinate: i64, by: i128) -> (moved: i64)
    ensures
        moved == clamped(coordinate + by),
{
    match (coordinate as i128).checked_add(by) {
        Some(sum) => {
            if sum < i64::MIN as i128 {
                i64::MIN
            } else if sum > i64::MAX as i128 {
                i64::MAX
            } else {
                sum as i64
            }
        },
        None => {
            if by > 0 {
                i64::MAX
            } else {
                i64::MIN
            }
        },
    }
}

impl Position {
    /// This place moved by `dx` and `dy` steps; each coordinate stops at the
    /// edge of the world.
    pub open spec fn shifted(self, dx: int, dy: int) -> Position {
        Position { x: clamped(self.x + dx), y: clamped(self.y + dy) }
    }

    /// The middle of the world.
    pub fn origin() -> (p: Position)
        ensures
            p == (Position { x: 0, y: 0 }),
    {
        Position { x: 0, y: 0 }
    }

    /// Moves this place by `dx` and `dy` steps.
    pub fn shift(&mut self, dx: i128, dy: i128)
        ensures
            *final(self) == old(self).shifted(dx as int, dy as int),
    {
        self.x = shift_coordinate(self.x, dx);
        self.y = shift_coordinate(self.y, dy);
    }
}

} // verus!

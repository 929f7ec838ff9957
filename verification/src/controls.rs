//! Movement input: the four directional keys resolve to a facing
//! direction and a movement delta; the physics integration that consumes
//! them stays with the host engine.

use vstd::prelude::*;

verus! {

/// The player's facing direction, as the sprite sheet knows it.
#[derive(Clone, Copy, Debug, PartialEq, Eq, Structural)]
pub enum Direction {
    Up,
    Down,
    Left,
    Right,
}

/// The facing a movement delta resolves to: horizontal movement wins
/// over vertical, and standing still faces down.
pub open spec fn direction_of(dx: int, dy: int) -> Direction {
    if dx < 0 {
        Direction::Left
    } else if dx > 0 {
        Direction::Right
    } else if dy > 0 {
        Direction::Up
    } else {
        Direction::Down
    }
}

impl Direction {
    /// The column of this facing in the sprite atlas.
    pub open spec fn atlas(self) -> int {
        match self {
            Direction::Up => 2,
            Direction::Down => 1,
            Direction::Left => 0,
            Direction::Right => 3,
        }
    }

    /// The column of this facing in the sprite atlas.
    pub fn atlas_index(&self) -> (r: usize)
        ensures
            r == self.atlas(),
    {
        match self {
            Direction::Up => 2,
            Direction::Down => 1,
            Direction::Left => 0,
            Direction::Right => 3,
        }
    }
}

impl Default for Direction {
    /// An idle player faces down.
    fn default() -> (r: Direction)
        ensures
            r == Direction::Down,
    {
        Direction::Down
    }
}

impl From<(i32, i32)> for Direction {
    /// The facing a movement delta resolves to.
    fn from(value: (i32, i32)) -> (r: Direction)
        ensures
            r == direction_of(value.0 as int, value.1 as int),
    {
        if value.0 < 0 {
            Direction::Left
        } else if value.0 > 0 {
            Direction::Right
        } else if value.1 > 0 {
            Direction::Up
        } else {
            Direction::Down
        }
    }
}

impl vstd::std_specs::convert::FromSpecImpl<(i32, i32)> for Direction {
    open spec fn obeys_from_spec() -> bool {
        true
    }

    open spec fn from_spec(value: (i32, i32)) -> Direction {
        direction_of(value.0 as int, value.1 as int)
    }
}

/// The movement delta the four directional key states resolve to: each
/// axis is the difference of its two keys.
pub fn movement_delta(left: bool, right: bool, up: bool, down: bool) -> (r: (i32, i32))
    ensures
        r.0 == (if right {
            1int
        } else {
            0int
        }) - (if left {
            1int
        } else {
            0int
        }),
        r.1 == (if up {
            1int
        } else {
            0int
        }) - (if down {
            1int
        } else {
            0int
        }),
{
    let dx: i32 = (if right {
        1
    } else {
        0
    }) - (if left {
        1
    } else {
        0
    });
    let dy: i32 = (if up {
        1
    } else {
        0
    }) - (if down {
        1
    } else {
        0
    });
    (dx, dy)
}

} // verus!

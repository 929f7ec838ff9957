//! The player's animation state: a facing direction and a walk-cycle
//! phase that together pick the sprite-atlas cell.

use vstd::prelude::*;

use crate::controls::Direction;

verus! {

/// How many atlas cells one walk step advances the phase.
pub const ANIM_STEP: usize = 4;

/// The number of cells in the walk cycle; the phase wraps below it.
pub const ANIM_CYCLE: usize = 12;

/// The player's animation record: the facing direction and the current
/// walk-cycle phase.
#[derive(Clone, Copy, Debug, PartialEq, Eq, Structural)]
pub struct Player {
    pub direction: Direction,
    pub phase: usize,
}

impl Player {
    /// The phase always stays inside the walk cycle.
    pub open spec fn wf(self) -> bool {
        self.phase < ANIM_CYCLE
    }

    /// The record after one animation tick: a finished timer steps the
    /// walk cycle, and a player who is not moving snaps back to the
    /// resting phase whatever the timer did.
    pub open spec fn animated(self, moving: bool, timer_fired: bool) -> Player {
        let stepped = if timer_fired {
            ((self.phase + ANIM_STEP) % (ANIM_CYCLE as int)) as usize
        } else {
            self.phase
        };
        Player {
            direction: self.direction,
            phase: if moving {
                stepped
            } else {
                0
            },
        }
    }

    /// A fresh player: facing down, at rest.
    pub fn new() -> (r: Player)
        ensures
            r == (Player { direction: Direction::Down, phase: 0usize }),
            r.wf(),
    {
        Player { direction: Direction::Down, phase: 0 }
    }

    /// One animation tick.
    pub fn animate(&mut self, moving: bool, timer_fired: bool)
        requires
            old(self).wf(),
        ensures
            *final (self) == old(self).animated(moving, timer_fired),
            final (self).wf(),
    {
        if timer_fired {
            self.phase = (self.phase + ANIM_STEP) % ANIM_CYCLE;
        }
        if !moving {
            self.phase = 0;
        }
    }

    /// The sprite-atlas cell this record shows: the facing's column
    /// shifted by the walk-cycle phase.
    pub fn sprite_index(&self) -> (r: usize)
        requires
            self.wf(),
        ensures
            r == self.direction.atlas() + self.phase,
    {
        self.direction.atlas_index() + self.phase
    }
}

} // verus!

//! The tool selector: a cyclic selection over the four farming tools,
//! each with its activation and deactivation effect on a targeted grass
//! tile.

use vstd::prelude::*;

use crate::grass::{FarmStage, Grass};

verus! {

/// The player's selected interaction mode. The selection cycles in the
/// fixed order Cultivate, Plant, Water, Harvest.
#[derive(Clone, Copy, Debug, PartialEq, Eq, Structural)]
pub enum Tool {
    Cultivate,
    Plant,
    Water,
    Harvest,
}

impl Tool {
    /// The next tool in the cycle.
    pub open spec fn cycled(self) -> Tool {
        match self {
            Tool::Cultivate => Tool::Plant,
            Tool::Plant => Tool::Water,
            Tool::Water => Tool::Harvest,
            Tool::Harvest => Tool::Cultivate,
        }
    }

    /// The previous tool in the cycle.
    pub open spec fn rev_cycled(self) -> Tool {
        match self {
            Tool::Cultivate => Tool::Harvest,
            Tool::Plant => Tool::Cultivate,
            Tool::Water => Tool::Plant,
            Tool::Harvest => Tool::Water,
        }
    }

    /// The tile record this tool's activation leaves behind. Cultivate
    /// and Water keep their own idempotent semantics; Plant moves an
    /// Empty plot to Sprout; Harvest reaps a Ripening plot back to Empty
    /// and otherwise does nothing.
    pub open spec fn activated(self, g: Grass) -> Grass {
        match self {
            Tool::Cultivate => g.cultivated(),
            Tool::Plant => g.planted(),
            Tool::Water => g.watered_down(),
            Tool::Harvest => {
                if self.reaps(g) {
                    Grass {
                        farmland: Some(crate::grass::Farmland(FarmStage::Empty)),
                        ..g
                    }
                } else {
                    g
                }
            },
        }
    }

    /// Whether a Harvest activation reaps the tile: only a plot that has
    /// reached Ripening yields.
    pub open spec fn reaps(self, g: Grass) -> bool {
        self is Harvest && g.farmland == Some(crate::grass::Farmland(FarmStage::Ripening))
    }

    /// The crop yield of one activation: one crop when Harvest reaps,
    /// none otherwise.
    pub open spec fn activation_yield(self, g: Grass) -> int {
        if self.reaps(g) {
            1int
        } else {
            0int
        }
    }

    /// The tile record this tool's deactivation leaves behind: only
    /// Cultivate has one, the undo that returns the tile to natural
    /// grass.
    pub open spec fn deactivated(self, g: Grass) -> Grass {
        match self {
            Tool::Cultivate => g.decultivated(),
            _ => g,
        }
    }

    /// The tool's display name, used to pick its icon.
    pub fn name(&self) -> (r: &'static str)
        ensures
            r@ == match *self {
                Tool::Cultivate => "cultivate"@,
                Tool::Plant => "plant"@,
                Tool::Water => "water"@,
                Tool::Harvest => "harvest"@,
            },
    {
        match self {
            Tool::Cultivate => "cultivate",
            Tool::Plant => "plant",
            Tool::Water => "water",
            Tool::Harvest => "harvest",
        }
    }

    /// Step the selection forward in the cycle.
    pub fn cycle(&mut self)
        ensures
            *final (self) == old(self).cycled(),
    {
        *self = match self {
            Tool::Cultivate => Tool::Plant,
            Tool::Plant => Tool::Water,
            Tool::Water => Tool::Harvest,
            Tool::Harvest => Tool::Cultivate,
        };
    }

    /// Step the selection backward in the cycle.
    pub fn rev_cycle(&mut self)
        ensures
            *final (self) == old(self).rev_cycled(),
    {
        *self = match self {
            Tool::Cultivate => Tool::Harvest,
            Tool::Plant => Tool::Cultivate,
            Tool::Water => Tool::Plant,
            Tool::Harvest => Tool::Water,
        };
    }

    /// Apply this tool to a targeted grass tile, returning the crop
    /// yield. Harvest reaps a Ripening plot back to Empty for a yield of
    /// one crop, and is a no-op with no yield anywhere else.
    pub fn activate(&self, target: &mut Grass) -> (harvested: u32)
        ensures
            *final (target) == self.activated(*old(target)),
            harvested == self.activation_yield(*old(target)),
    {
        match self {
            Tool::Cultivate => {
                target.cultivate();
                0
            },
            Tool::Plant => {
                target.plant();
                0
            },
            Tool::Water => {
                target.water();
                0
            },
            Tool::Harvest => {
                match target.farmland {
                    Some(f) => {
                        if f.0 == FarmStage::Ripening {
                            target.farmland = Some(crate::grass::Farmland(FarmStage::Empty));
                            1
                        } else {
                            0
                        }
                    },
                    None => 0,
                }
            },
        }
    }

    /// Undo this tool's effect on a targeted tile: only Cultivate
    /// defines one, removing the plot and its watering flag.
    pub fn deactivate(&self, target: &mut Grass)
        ensures
            *final (target) == self.deactivated(*old(target)),
    {
        match self {
            Tool::Cultivate => {
                target.decultivate();
            },
            _ => (),
        }
    }
}

/// Four forward steps, or four backward steps, return the selection to
/// where it started; one forward and one backward step, in either order,
/// cancel out.
pub proof fn lemma_cycle_round_trip(t: Tool)
    ensures
        t.cycled().cycled().cycled().cycled() == t,
        t.rev_cycled().rev_cycled().rev_cycled().rev_cycled() == t,
        t.cycled().rev_cycled() == t,
        t.rev_cycled().cycled() == t,
{
}

/// Activating Cultivate twice on the same tile leaves the same record as
/// activating it once; likewise Water.
pub proof fn lemma_activate_idempotent(g: Grass)
    ensures
        Tool::Cultivate.activated(Tool::Cultivate.activated(g)) == Tool::Cultivate.activated(g),
        Tool::Water.activated(Tool::Water.activated(g)) == Tool::Water.activated(g),
{
}

} // verus!

//! The per-tile farming state machine: arability assignment, the
//! cultivation life-cycle, growth staging, watering, and the derived
//! texture index the renderer consumes.

use std::collections::HashMap;
use vstd::prelude::*;

verus! {

broadcast use vstd::std_specs::hash::group_hash_axioms;

/// How many scale units stand for an arability of one. Arability is a
/// scalar in [0, 1]; the record keeps it in fixed point, in units of one
/// millionth.
pub const ARABILITY_SCALE: u32 = 1000000;

/// Per-tile fertility, assigned once per session from procedural
/// generation, in fixed point: `0` stands for 0.0 and `ARABILITY_SCALE`
/// for 1.0.
#[derive(Clone, Copy, Debug, PartialEq, Eq, Structural)]
pub struct Arability(pub u32);

impl Arability {
    /// An arability value must lie in [0, 1].
    pub open spec fn wf(self) -> bool {
        self.0 <= ARABILITY_SCALE
    }

    /// The whole-number percentage shown to the player, rounded to the
    /// nearest point.
    pub fn percent(&self) -> (r: u32)
        requires
            self.wf(),
        ensures
            r as int == (self.0 as int + ARABILITY_SCALE as int / 200) / (ARABILITY_SCALE as int
                / 100),
            r <= 100,
    {
        proof {
            assert(ARABILITY_SCALE as int / 200 == 5000);
            assert(ARABILITY_SCALE as int / 100 == 10000);
            assert(1005000int / 10000 == 100);
            vstd::arithmetic::div_mod::lemma_div_is_ordered(
                self.0 as int + 5000,
                1005000,
                10000,
            );
        }
        (self.0 + ARABILITY_SCALE / 200) / (ARABILITY_SCALE / 100)
    }
}

/// The growth phase of a cultivated plot. Progression is
/// Empty -> Sprout -> Vegetative -> Ripening; Empty and Ripening absorb
/// `next`, and only an explicit planting leaves Empty.
#[derive(Clone, Copy, Debug, PartialEq, Eq, Structural)]
pub enum FarmStage {
    Empty,
    Sprout,
    Vegetative,
    Ripening,
}

impl FarmStage {
    /// Where planting takes a stage: Empty becomes Sprout, every other
    /// stage stays put.
    pub open spec fn planted(self) -> FarmStage {
        if self is Empty {
            FarmStage::Sprout
        } else {
            self
        }
    }

    /// Where one growth step takes a stage: Sprout to Vegetative to
    /// Ripening; Empty and Ripening stay put.
    pub open spec fn advanced(self) -> FarmStage {
        match self {
            FarmStage::Empty => FarmStage::Empty,
            FarmStage::Sprout => FarmStage::Vegetative,
            FarmStage::Vegetative => FarmStage::Ripening,
            FarmStage::Ripening => FarmStage::Ripening,
        }
    }

    /// The position of a stage in the progression order.
    pub open spec fn ord(self) -> int {
        match self {
            FarmStage::Empty => 0,
            FarmStage::Sprout => 1,
            FarmStage::Vegetative => 2,
            FarmStage::Ripening => 3,
        }
    }

    /// The base cell of this stage in the texture atlas.
    pub open spec fn atlas_base(self) -> int {
        match self {
            FarmStage::Empty => 80,
            FarmStage::Sprout => 120,
            FarmStage::Vegetative => 160,
            FarmStage::Ripening => 160,
        }
    }

    /// Plant this plot: only an Empty plot sprouts; anything already
    /// growing is left alone.
    pub fn plant(&mut self)
        ensures
            *final (self) == old(self).planted(),
    {
        if *self == FarmStage::Empty {
            *self = FarmStage::Sprout;
        }
    }

    /// One growth step.
    pub fn next(&mut self)
        ensures
            *final (self) == old(self).advanced(),
    {
        *self = match self {
            FarmStage::Empty => FarmStage::Empty,
            FarmStage::Sprout => FarmStage::Vegetative,
            FarmStage::Vegetative => FarmStage::Ripening,
            FarmStage::Ripening => FarmStage::Ripening,
        }
    }

    /// The base cell of this stage in the texture atlas.
    pub fn atlas_index(&self) -> (r: usize)
        ensures
            r == self.atlas_base(),
    {
        match self {
            FarmStage::Empty => 80,
            FarmStage::Sprout => 120,
            FarmStage::Vegetative => 160,
            FarmStage::Ripening => 160,
        }
    }
}

/// Growth never regresses and never skips a stage: one step from any
/// stage moves up by at most one position and never down; a freshly
/// planted plot visits Sprout, Vegetative, Ripening and then stays at
/// Ripening.
pub proof fn lemma_monotonic_staging()
    ensures
        FarmStage::Empty.planted() == FarmStage::Sprout,
        FarmStage::Sprout.advanced() == FarmStage::Vegetative,
        FarmStage::Vegetative.advanced() == FarmStage::Ripening,
        FarmStage::Ripening.advanced() == FarmStage::Ripening,
        forall|s: FarmStage| (#[trigger] s.advanced()).ord() >= s.ord(),
        forall|s: FarmStage| (#[trigger] s.advanced()).ord() <= s.ord() + 1,
{
}

/// The cultivation overlay of a grass tile: present exactly while the
/// tile is farmland, carrying its growth stage.
#[derive(Clone, Copy, Debug, PartialEq, Eq, Structural)]
pub struct Farmland(pub FarmStage);

/// The watering flag of a tile: present while the tile has been watered.
#[derive(Clone, Copy, Debug, PartialEq, Eq, Structural)]
pub struct Watered;

/// The texture cell a tile falls back to when it shows no cultivation:
/// the bare-grass sprite.
pub const BARE_GRASS_TEXTURE: u32 = 31;

/// The lowest texture cell of the cultivated range. A tile whose previous
/// texture lies below this (and is not the bare-grass sprite) while it is
/// marked cultivated is in an inconsistent state.
pub const CULTIVATED_TEXTURE_FLOOR: u32 = 50;

/// One grass tile's farming record: the state the farming passes read
/// and write. Arability is assigned once; the cultivation overlay and
/// watering flag come and go with the tools; the texture index is what
/// the renderer showed last and what the derivation pass recomputes.
#[derive(Clone, Copy, Debug, PartialEq, Eq, Structural)]
pub struct Grass {
    pub arability: Option<Arability>,
    pub farmland: Option<Farmland>,
    pub watered: Option<Watered>,
    pub texture: u32,
}

impl Grass {
    /// A bare, not yet generated grass tile showing the bare-grass
    /// sprite.
    pub fn new() -> (r: Grass)
        ensures
            r == (Grass {
                arability: None::<Arability>,
                farmland: None::<Farmland>,
                watered: None::<Watered>,
                texture: BARE_GRASS_TEXTURE as u32,
            }),
    {
        Grass { arability: None, farmland: None, watered: None, texture: BARE_GRASS_TEXTURE }
    }

    /// The record after arability assignment: the value lands only on a
    /// tile that has none yet.
    pub open spec fn with_arability(self, value: Arability) -> Grass {
        if self.arability is Some {
            self
        } else {
            Grass { arability: Some(value), ..self }
        }
    }

    /// The record after cultivation: natural grass becomes an empty, dry
    /// plot; a tile already under cultivation is left alone.
    pub open spec fn cultivated(self) -> Grass {
        if self.farmland is Some {
            self
        } else {
            Grass { farmland: Some(Farmland(FarmStage::Empty)), watered: None, ..self }
        }
    }

    /// The record after planting: only the stage of an existing plot may
    /// move, and only from Empty to Sprout.
    pub open spec fn planted(self) -> Grass {
        match self.farmland {
            Some(Farmland(stage)) => Grass { farmland: Some(Farmland(stage.planted())), ..self },
            None => self,
        }
    }

    /// The record after one growth step of its plot, if any.
    pub open spec fn advanced(self) -> Grass {
        match self.farmland {
            Some(Farmland(stage)) => Grass { farmland: Some(Farmland(stage.advanced())), ..self },
            None => self,
        }
    }

    /// The record after watering: the flag is attached whatever the
    /// state; it shows only while the tile is cultivated.
    pub open spec fn watered_down(self) -> Grass {
        Grass { watered: Some(Watered), ..self }
    }

    /// The record after decultivation: the plot and the watering flag
    /// are removed together.
    pub open spec fn decultivated(self) -> Grass {
        Grass { farmland: None, watered: None, ..self }
    }

    /// Assign procedurally generated arability. A no-op on a tile that
    /// already has a value: the generation pass may see the same tile on
    /// several ticks.
    pub fn assign_arability(&mut self, value: Arability)
        ensures
            *final (self) == old(self).with_arability(value),
    {
        if self.arability.is_none() {
            self.arability = Some(value);
        }
    }

    /// Cultivate this tile. A no-op on a tile already under cultivation.
    pub fn cultivate(&mut self)
        ensures
            *final (self) == old(self).cultivated(),
    {
        if self.farmland.is_none() {
            self.farmland = Some(Farmland(FarmStage::Empty));
            self.watered = None;
        }
    }

    /// Plant this tile's plot, if it has one and the plot is Empty.
    pub fn plant(&mut self)
        ensures
            *final (self) == old(self).planted(),
    {
        match &mut self.farmland {
            Some(f) => f.0.plant(),
            None => (),
        }
    }

    /// One growth step for this tile's plot, if it has one.
    pub fn advance(&mut self)
        ensures
            *final (self) == old(self).advanced(),
    {
        match &mut self.farmland {
            Some(f) => f.0.next(),
            None => (),
        }
    }

    /// Water this tile.
    pub fn water(&mut self)
        ensures
            *final (self) == old(self).watered_down(),
    {
        self.watered = Some(Watered);
    }

    /// Remove this tile's plot and watering flag, returning it to
    /// natural grass.
    pub fn decultivate(&mut self)
        ensures
            *final (self) == old(self).decultivated(),
    {
        self.farmland = None;
        self.watered = None;
    }

    /// The texture cell a cultivated plot shows: the stage's base cell,
    /// shifted by five when watered.
    pub open spec fn cultivated_texture(stage: FarmStage, watered: bool) -> int {
        stage.atlas_base() + if watered {
            5int
        } else {
            0int
        }
    }

    /// The record after the texture derivation pass. A cultivated tile
    /// whose previous texture is neither the bare-grass sprite nor in the
    /// cultivated range was reached through inconsistent transitions and
    /// is forcibly returned to natural grass; a consistent cultivated
    /// tile shows its plot's cell; a natural tile keeps its texture, or
    /// collapses a stale cultivated-range texture to the bare-grass
    /// sprite.
    pub open spec fn derived(self) -> Grass {
        match self.farmland {
            Some(Farmland(stage)) => {
                if self.texture != BARE_GRASS_TEXTURE && self.texture < CULTIVATED_TEXTURE_FLOOR {
                    Grass { farmland: None, watered: None, ..self }
                } else {
                    Grass {
                        texture: Self::cultivated_texture(stage, self.watered is Some) as u32,
                        ..self
                    }
                }
            },
            None => Grass {
                texture: if self.texture >= CULTIVATED_TEXTURE_FLOOR {
                    BARE_GRASS_TEXTURE as u32
                } else {
                    self.texture
                },
                ..self
            },
        }
    }

    /// Recompute this tile's texture from its farming state, applying
    /// the reconciliation guard. Pure in everything but this one record,
    /// so the pass may run over all tiles in parallel.
    pub fn apply_texture(&mut self)
        ensures
            *final (self) == old(self).derived(),
    {
        match self.farmland {
            Some(Farmland(stage)) => {
                if self.texture != BARE_GRASS_TEXTURE && self.texture < CULTIVATED_TEXTURE_FLOOR {
                    self.farmland = None;
                    self.watered = None;
                } else {
                    let base = stage.atlas_index();
                    let idx = if self.watered.is_some() {
                        base + 5
                    } else {
                        base
                    };
                    self.texture = idx as u32;
                }
            },
            None => {
                if self.texture >= CULTIVATED_TEXTURE_FLOOR {
                    self.texture = BARE_GRASS_TEXTURE;
                }
            },
        }
    }
}

/// For every stage and watering combination of a consistently textured
/// cultivated tile, the derived texture equals the stage's atlas base
/// plus five exactly when watered, and the farming state is untouched.
pub proof fn lemma_derived_texture_table(g: Grass, stage: FarmStage)
    requires
        g.farmland == Some(Farmland(stage)),
        g.texture == BARE_GRASS_TEXTURE || g.texture >= CULTIVATED_TEXTURE_FLOOR,
    ensures
        g.derived().texture == Grass::cultivated_texture(stage, g.watered is Some),
        g.derived().farmland == g.farmland,
        g.derived().watered == g.watered,
        g.derived().arability == g.arability,
{
}

/// A natural tile's derived texture is its previous one, or the
/// bare-grass sprite where the previous one was in the cultivated range;
/// it is never itself a cultivated-range value.
pub proof fn lemma_natural_texture_collapse(g: Grass)
    requires
        g.farmland is None,
    ensures
        g.derived().texture == if g.texture >= CULTIVATED_TEXTURE_FLOOR {
            BARE_GRASS_TEXTURE as u32
        } else {
            g.texture
        },
        g.derived().texture < CULTIVATED_TEXTURE_FLOOR,
        g.derived().farmland is None,
{
}

/// The reconciliation guard: a tile marked cultivated whose previous
/// texture is neither the bare-grass sprite nor in the cultivated range
/// is returned to natural grass, plot and watering flag removed, texture
/// kept.
pub proof fn lemma_reconciliation_guard(g: Grass)
    requires
        g.farmland is Some,
        g.texture != BARE_GRASS_TEXTURE,
        g.texture < CULTIVATED_TEXTURE_FLOOR,
    ensures
        g.derived().farmland is None,
        g.derived().watered is None,
        g.derived().texture == g.texture,
{
}

/// One derivation pass reaches a fixed point: deriving a derived record
/// changes nothing, so the reconciliation guard settles every tile in a
/// single pass.
pub proof fn lemma_derived_idempotent(g: Grass)
    ensures
        g.derived().derived() == g.derived(),
{
}

/// Recompute the texture of every tile the engine's query names, each
/// from its own record alone; tiles outside the query keep their record.
/// Naming a tile more than once is harmless: one derivation pass is a
/// fixed point.
pub fn apply_textures(tiles: &mut HashMap<u64, Grass>, ents: &Vec<u64>)
    ensures
        final (tiles)@.dom() == old(tiles)@.dom(),
        forall|k: u64| #[trigger]
            old(tiles)@.contains_key(k) ==> final (tiles)@[k] == if ents@.contains(k) {
                old(tiles)@[k].derived()
            } else {
                old(tiles)@[k]
            },
{
    let n = ents.len();
    let mut i: usize = 0;
    while i < n
        invariant
            i <= n,
            n == ents@.len(),
            tiles@.dom() == old(tiles)@.dom(),
            forall|k: u64| #[trigger]
                old(tiles)@.contains_key(k) ==> tiles@[k] == if ents@.take(i as int).contains(k) {
                    old(tiles)@[k].derived()
                } else {
                    old(tiles)@[k]
                },
        decreases n - i,
    {
        let e = ents[i];
        match tiles.get(&e) {
            Some(g) => {
                let mut record = *g;
                record.apply_texture();
                tiles.insert(e, record);
                proof {
                    assert(tiles@.dom() =~= old(tiles)@.dom());
                }
            },
            None => (),
        }
        proof {
            assert forall|k: u64| #[trigger]
                old(tiles)@.contains_key(k) implies tiles@[k] == if ents@.take(
                i + 1 as int,
            ).contains(k) {
                old(tiles)@[k].derived()
            } else {
                old(tiles)@[k]
            } by {
                assert(ents@.take(i + 1 as int) =~= ents@.take(i as int).push(e));
                crate::world::lemma_push_contains(ents@.take(i as int), e, k);
                lemma_derived_idempotent(old(tiles)@[k]);
            }
        }
        i = i + 1;
    }
    proof {
        assert(ents@.take(n as int) =~= ents@);
    }
}

/// Cultivating twice leaves the same record as cultivating once.
pub proof fn lemma_cultivate_idempotent(g: Grass)
    ensures
        g.cultivated().cultivated() == g.cultivated(),
{
}

/// Assigning arability twice leaves the same record as assigning once.
pub proof fn lemma_assign_arability_idempotent(g: Grass, v: Arability)
    ensures
        g.with_arability(v).with_arability(v) == g.with_arability(v),
{
}

/// Watering twice leaves the same record as watering once.
pub proof fn lemma_water_idempotent(g: Grass)
    ensures
        g.watered_down().watered_down() == g.watered_down(),
{
}

} // verus!

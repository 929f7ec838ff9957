//! The interaction resolver: the cursor's world position resolves to a
//! grid cell through the fixed tile-to-world mapping, picks the selected
//! tile out of the spatial index, and the selected tool acts on it.

use std::collections::HashMap;
use vstd::prelude::*;

use crate::grass::Grass;
use crate::tools::Tool;
use crate::world::{GridCoords, TileType, WorldIndex};

verus! {

broadcast use vstd::std_specs::hash::group_hash_axioms;

/// Fixed-point sub-units per world unit: cursor positions are carried in
/// 1/256ths of a world unit.
pub const CURSOR_SCALE: i64 = 256;

/// One tile's span in world units.
pub const TILE_SIZE: i64 = 16;

/// The offset of tile centres from the world origin, in world units.
pub const TILE_OFFSET: i64 = 8;

/// The largest cursor magnitude the resolver accepts, in fixed-point
/// sub-units; keeps every resolved grid coordinate inside `i32`.
pub const CURSOR_LIMIT: i64 = 0x10000000000;

/// The nearest integer to `n / d`, ties rounded away from zero, for a
/// positive divisor.
pub open spec fn round_ties_away(n: int, d: int) -> int {
    if n >= 0 {
        (2 * n + d) / (2 * d)
    } else {
        -((2 * -n + d) / (2 * d))
    }
}

/// The least integer at or above `n / d`, for a positive divisor.
pub open spec fn div_ceil(n: int, d: int) -> int {
    if n >= 0 {
        (n + d - 1) / d
    } else {
        -(-n / d)
    }
}

fn round_div_away(n: i64, d: i64) -> (r: i64)
    requires
        0 < d <= 0x10000,
        -0x20000000000 <= n <= 0x20000000000,
    ensures
        r == round_ties_away(n as int, d as int),
{
    if n >= 0 {
        let q = (2 * (n as u64) + (d as u64)) / (2 * (d as u64));
        q as i64
    } else {
        let m = (-n) as u64;
        let q = (2 * m + (d as u64)) / (2 * (d as u64));
        -(q as i64)
    }
}

fn div_ceil_exec(n: i64, d: i64) -> (r: i64)
    requires
        0 < d <= 0x10000,
        -0x20000000000 <= n <= 0x20000000000,
    ensures
        r == div_ceil(n as int, d as int),
{
    if n >= 0 {
        let q = ((n as u64) + (d as u64) - 1) / (d as u64);
        q as i64
    } else {
        let m = (-n) as u64;
        let q = m / (d as u64);
        -(q as i64)
    }
}

/// The cursor state the host hands in each tick: the pointer's world
/// position in fixed-point sub-units.
pub struct Interface {
    pub cursor: (i64, i64),
}

impl Interface {
    /// The cursor stays inside the resolvable range.
    pub open spec fn wf(self) -> bool {
        -CURSOR_LIMIT <= self.cursor.0 <= CURSOR_LIMIT && -CURSOR_LIMIT <= self.cursor.1
            <= CURSOR_LIMIT
    }

    /// The grid coordinate one fixed-point cursor axis resolves to: the
    /// nearest tile centre under the mapping
    /// `round((cursor - offset) / tile_size)` in world units.
    pub open spec fn grid_axis(c: int) -> int {
        round_ties_away(c - TILE_OFFSET * CURSOR_SCALE, TILE_SIZE * CURSOR_SCALE)
    }

    /// The grid cell the cursor stands on.
    pub open spec fn grid_coords(self) -> GridCoords {
        GridCoords {
            x: Self::grid_axis(self.cursor.0 as int) as i32,
            y: Self::grid_axis(self.cursor.1 as int) as i32,
        }
    }

    /// An interface with the cursor at the world origin.
    pub fn new() -> (r: Interface)
        ensures
            r.cursor.0 == 0 && r.cursor.1 == 0,
            r.wf(),
    {
        Interface { cursor: (0, 0) }
    }

    /// Resolve the cursor's world position to the grid cell it stands
    /// on.
    pub fn cursor_grid_coords(&self) -> (r: GridCoords)
        requires
            self.wf(),
        ensures
            r == self.grid_coords(),
            r.x == Self::grid_axis(self.cursor.0 as int),
            r.y == Self::grid_axis(self.cursor.1 as int),
    {
        let d = TILE_SIZE * CURSOR_SCALE;
        let gx = round_div_away(self.cursor.0 - TILE_OFFSET * CURSOR_SCALE, d);
        let gy = round_div_away(self.cursor.1 - TILE_OFFSET * CURSOR_SCALE, d);
        GridCoords { x: gx as i32, y: gy as i32 }
    }

    /// One axis of the selection marker's world position: the upper tile
    /// corner at or past the cursor, pulled back to the tile centre.
    pub open spec fn selector_axis(c: int) -> int {
        div_ceil(c, TILE_SIZE * CURSOR_SCALE) * (TILE_SIZE * CURSOR_SCALE) - TILE_OFFSET
            * CURSOR_SCALE
    }

    /// Where the selection marker stands, in fixed-point sub-units.
    pub fn selector_pos(&self) -> (r: (i64, i64))
        requires
            self.wf(),
        ensures
            r.0 == Self::selector_axis(self.cursor.0 as int),
            r.1 == Self::selector_axis(self.cursor.1 as int),
    {
        let d = TILE_SIZE * CURSOR_SCALE;
        let qx = div_ceil_exec(self.cursor.0, d);
        let qy = div_ceil_exec(self.cursor.1, d);
        (qx * d - TILE_OFFSET * CURSOR_SCALE, qy * d - TILE_OFFSET * CURSOR_SCALE)
    }

    /// The grass tile under the cursor, if the index holds one there:
    /// its entity is this tick's selection.
    pub open spec fn spec_selected_grass(self, index: Map<GridCoords, (u64, TileType)>) -> Option<
        u64,
    > {
        let c = self.grid_coords();
        if index.contains_key(c) && index[c].1 == TileType::Grass {
            Some(index[c].0)
        } else {
            None
        }
    }

    /// The type of the tile under the cursor, if the index holds one.
    pub open spec fn spec_selected_tile(self, index: Map<GridCoords, (u64, TileType)>) -> Option<
        TileType,
    > {
        let c = self.grid_coords();
        if index.contains_key(c) {
            Some(index[c].1)
        } else {
            None
        }
    }

    /// The entity of the grass tile under the cursor, if any; a cursor
    /// over any other tile, or off the loaded level, selects nothing.
    pub fn selected_grass(&self, index: &WorldIndex) -> (r: Option<u64>)
        requires
            self.wf(),
        ensures
            r == self.spec_selected_grass(index@),
    {
        let c = self.cursor_grid_coords();
        match index.get(c) {
            Some(entry) => {
                if entry.1 == TileType::Grass {
                    Some(entry.0)
                } else {
                    None
                }
            },
            None => None,
        }
    }

    /// The type of the tile under the cursor, if any.
    pub fn selected_tile(&self, index: &WorldIndex) -> (r: Option<TileType>)
        requires
            self.wf(),
        ensures
            r == self.spec_selected_tile(index@),
    {
        let c = self.cursor_grid_coords();
        index.get_type(c)
    }
}

/// Apply the selected tool to the tile under the cursor, exactly once,
/// when the primary action is held and the cursor selects a grass tile
/// the store knows; every other tile is left untouched. Returns the crop
/// yield of the activation.
pub fn tool_activate(
    tool: &Tool,
    interface: &Interface,
    index: &WorldIndex,
    tiles: &mut HashMap<u64, Grass>,
    primary_held: bool,
) -> (harvested: u32)
    requires
        interface.wf(),
    ensures
        ({
            let sel = if primary_held {
                interface.spec_selected_grass(index@)
            } else {
                None
            };
            match sel {
                Some(ent) => {
                    if old(tiles)@.contains_key(ent) {
                        &&& final (tiles)@ == old(tiles)@.insert(
                            ent,
                            tool.activated(old(tiles)@[ent]),
                        )
                        &&& harvested == tool.activation_yield(old(tiles)@[ent])
                    } else {
                        final (tiles)@ == old(tiles)@ && harvested == 0
                    }
                },
                None => final (tiles)@ == old(tiles)@ && harvested == 0,
            }
        }),
{
    if !primary_held {
        return 0;
    }
    match interface.selected_grass(index) {
        Some(ent) => {
            match tiles.get(&ent) {
                Some(g) => {
                    let mut record = *g;
                    let harvested = tool.activate(&mut record);
                    tiles.insert(ent, record);
                    harvested
                },
                None => 0,
            }
        },
        None => 0,
    }
}

/// Undo the selected tool on the tile under the cursor when the
/// secondary action is held: only Cultivate has an undo, which returns
/// the tile to natural grass.
pub fn tool_deactivate(
    tool: &Tool,
    interface: &Interface,
    index: &WorldIndex,
    tiles: &mut HashMap<u64, Grass>,
    secondary_held: bool,
) -> (r: bool)
    requires
        interface.wf(),
    ensures
        ({
            let sel = if secondary_held {
                interface.spec_selected_grass(index@)
            } else {
                None
            };
            match sel {
                Some(ent) => {
                    if old(tiles)@.contains_key(ent) {
                        final (tiles)@ == old(tiles)@.insert(
                            ent,
                            tool.deactivated(old(tiles)@[ent]),
                        ) && r
                    } else {
                        final (tiles)@ == old(tiles)@ && !r
                    }
                },
                None => final (tiles)@ == old(tiles)@ && !r,
            }
        }),
{
    if !secondary_held {
        return false;
    }
    match interface.selected_grass(index) {
        Some(ent) => {
            match tiles.get(&ent) {
                Some(g) => {
                    let mut record = *g;
                    tool.deactivate(&mut record);
                    tiles.insert(ent, record);
                    true
                },
                None => false,
            }
        },
        None => false,
    }
}

/// The arability readout for the tile under the cursor: hidden when no
/// grass tile is selected; otherwise the selected tile's arability as a
/// rounded percentage, or nothing where the generation pass has not
/// reached it yet.
pub fn arability_readout(
    interface: &Interface,
    index: &WorldIndex,
    tiles: &HashMap<u64, Grass>,
) -> (r: Option<Option<u32>>)
    requires
        interface.wf(),
        forall|ent: u64, a: crate::grass::Arability|
            tiles@.contains_key(ent) && tiles@[ent].arability == Some(a) ==> a.wf(),
    ensures
        ({
            match interface.spec_selected_grass(index@) {
                Some(ent) => {
                    if tiles@.contains_key(ent) && tiles@[ent].arability is Some {
                        let a = tiles@[ent].arability.unwrap();
                        r matches Some(Some(p)) && p as int == (a.0 as int
                            + crate::grass::ARABILITY_SCALE as int / 200) / (
                        crate::grass::ARABILITY_SCALE as int / 100)
                    } else {
                        r == Some(None::<u32>)
                    }
                },
                None => r is None,
            }
        }),
{
    match interface.selected_grass(index) {
        Some(ent) => {
            match tiles.get(&ent) {
                Some(g) => {
                    match g.arability {
                        Some(a) => Some(Some(a.percent())),
                        None => Some(None),
                    }
                },
                None => Some(None),
            }
        },
        None => None,
    }
}

/// Step the tool selection on a resolved cycle keypress: one step per
/// press, backward while the modifier is held.
pub fn tool_cycle(tool: &mut Tool, cycle_pressed: bool, reverse_held: bool)
    ensures
        *final (tool) == if cycle_pressed {
            if reverse_held {
                old(tool).rev_cycled()
            } else {
                old(tool).cycled()
            }
        } else {
            *old(tool)
        },
{
    if cycle_pressed {
        if reverse_held {
            tool.rev_cycle();
        } else {
            tool.cycle();
        }
    }
}

} // verus!

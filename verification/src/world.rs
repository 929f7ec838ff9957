//! The world spatial index: a coordinate-keyed lookup of tile entity and
//! tile classification, rebuilt whole on each level load, plus the
//! water-boundary adjacency pass over the loaded tiles.

use std::collections::HashMap;
use vstd::prelude::*;

verus! {

broadcast use vstd::std_specs::hash::group_hash_axioms;

/// A cell of the tile grid, identified by a pair of signed integers.
#[derive(Clone, Copy, Debug, PartialEq, Eq, Structural, Hash)]
pub struct GridCoords {
    pub x: i32,
    pub y: i32,
}

/// Classification of a tile, fixed by the level format's integer layer codes.
#[derive(Clone, Copy, Debug, PartialEq, Eq, Structural)]
pub enum TileType {
    Grass,
    Housing,
    Road,
    Water,
}

impl TileType {
    /// The layer code of each tile type: 1 is water, 2 grass, 3 housing,
    /// 4 road.
    pub open spec fn code(self) -> int {
        match self {
            TileType::Grass => 2,
            TileType::Housing => 3,
            TileType::Road => 4,
            TileType::Water => 1,
        }
    }

    /// The integer cell code of this tile type in the level format's
    /// `worldmap` layer.
    pub fn index(&self) -> (r: i32)
        ensures
            r == self.code(),
    {
        match self {
            TileType::Grass => 2,
            TileType::Housing => 3,
            TileType::Road => 4,
            TileType::Water => 1,
        }
    }

    /// The inverse of `code`: succeeds exactly on the codes 1 through 4.
    pub fn try_from(value: usize) -> (r: Result<TileType, ()>)
        ensures
            match r {
                Ok(t) => t.code() == value,
                Err(()) => !(1 <= value <= 4),
            },
    {
        match value {
            1 => Ok(TileType::Water),
            2 => Ok(TileType::Grass),
            3 => Ok(TileType::Housing),
            4 => Ok(TileType::Road),
            _ => Err(()),
        }
    }
}

/// The coordinate pair packed into one hash-table key: the two 32-bit
/// halves side by side.
pub closed spec fn coord_key(c: GridCoords) -> u64 {
    ((c.x as u32 as u64) << 32) | (c.y as u32 as u64)
}

/// Packing is injective: distinct coordinates get distinct keys.
proof fn lemma_coord_key_injective(a: GridCoords, b: GridCoords)
    ensures
        coord_key(a) == coord_key(b) ==> a == b,
{
    let ax = a.x;
    let ay = a.y;
    let bx = b.x;
    let by = b.y;
    assert((((ax as u32 as u64) << 32) | (ay as u32 as u64)) == (((bx as u32 as u64) << 32) | (
    by as u32 as u64)) ==> ax == bx && ay == by) by (bit_vector);
}

/// The spatial index: for each coordinate of the loaded level, the tile
/// entity that stands there and its classification. Authoritative only
/// between level loads; `rebuild` replaces it whole.
pub struct WorldIndex {
    index: HashMap<u64, (u64, TileType)>,
}

impl View for WorldIndex {
    type V = Map<GridCoords, (u64, TileType)>;

    closed spec fn view(&self) -> Map<GridCoords, (u64, TileType)> {
        Map::new(
            |c: GridCoords| self.index@.contains_key(coord_key(c)),
            |c: GridCoords| self.index@[coord_key(c)],
        )
    }
}

/// The index an entry list builds: later entries for the same coordinate
/// overwrite earlier ones.
pub open spec fn index_of_entries(s: Seq<(GridCoords, u64, TileType)>) -> Map<
    GridCoords,
    (u64, TileType),
>
    decreases s.len(),
{
    if s.len() == 0 {
        Map::empty()
    } else {
        index_of_entries(s.drop_last()).insert(s.last().0, (s.last().1, s.last().2))
    }
}

/// An index never keeps a coordinate that its latest entry list lacks:
/// `index_of_entries` holds a coordinate exactly when some entry names it.
pub proof fn lemma_index_coverage(s: Seq<(GridCoords, u64, TileType)>, c: GridCoords)
    ensures
        index_of_entries(s).contains_key(c) <==> (exists|i: int|
            0 <= i < s.len() && s[i].0 == c),
    decreases s.len(),
{
    if s.len() == 0 {
    } else {
        lemma_index_coverage(s.drop_last(), c);
        if s.last().0 == c {
            assert(s[s.len() - 1].0 == c);
        } else {
            if index_of_entries(s).contains_key(c) {
                let i = choose|i: int| 0 <= i < s.len() - 1 && s.drop_last()[i].0 == c;
                assert(s[i].0 == c);
            }
            if exists|i: int| 0 <= i < s.len() && s[i].0 == c {
                let i = choose|i: int| 0 <= i < s.len() && s[i].0 == c;
                assert(s.drop_last()[i].0 == c);
            }
        }
    }
}

/// What an index holds at a coordinate is the data of the last entry
/// that names it: no entry of an earlier load, and no overwritten
/// earlier entry, shows through.
pub proof fn lemma_index_latest_entry(s: Seq<(GridCoords, u64, TileType)>, i: int)
    requires
        0 <= i < s.len(),
        forall|j: int| i < j < s.len() ==> s[j].0 != s[i].0,
    ensures
        index_of_entries(s).contains_key(s[i].0),
        index_of_entries(s)[s[i].0] == (s[i].1, s[i].2),
    decreases s.len(),
{
    if i < s.len() - 1 {
        lemma_index_latest_entry(s.drop_last(), i);
    }
}

impl WorldIndex {
    /// A fresh, empty index.
    pub fn new() -> (r: WorldIndex)
        ensures
            r@ == Map::<GridCoords, (u64, TileType)>::empty(),
    {
        let r = WorldIndex { index: HashMap::new() };
        proof {
            assert(r@ =~= Map::<GridCoords, (u64, TileType)>::empty());
        }
        r
    }

    fn key(coords: GridCoords) -> (k: u64)
        ensures
            k == coord_key(coords),
    {
        ((coords.x as u32 as u64) << 32) | (coords.y as u32 as u64)
    }

    /// Record the tile entity and type standing at a coordinate,
    /// overwriting whatever was there.
    pub fn set(&mut self, coords: GridCoords, ent: u64, typ: TileType)
        ensures
            final (self)@ == old(self)@.insert(coords, (ent, typ)),
    {
        let k = Self::key(coords);
        self.index.insert(k, (ent, typ));
        proof {
            assert forall|c: GridCoords| #[trigger]
                self@.contains_key(c) <==> old(self)@.insert(coords, (ent, typ)).contains_key(
                c) by {
                lemma_coord_key_injective(c, coords);
            }
            assert forall|c: GridCoords| self@.contains_key(c) implies #[trigger] self@[c] == old(
                self,
            )@.insert(coords, (ent, typ))[c] by {
                lemma_coord_key_injective(c, coords);
            }
            assert(self@ =~= old(self)@.insert(coords, (ent, typ)));
        }
    }

    /// Replace the whole index by the given entry list, as one step:
    /// nothing of any earlier load survives.
    pub fn rebuild(&mut self, entries: &Vec<(GridCoords, u64, TileType)>)
        ensures
            final (self)@ == index_of_entries(entries@),
    {
        self.index.clear();
        proof {
            assert(self@ =~= Map::<GridCoords, (u64, TileType)>::empty());
            assert(entries@.take(0) =~= Seq::<(GridCoords, u64, TileType)>::empty());
        }
        let n = entries.len();
        let mut i: usize = 0;
        while i < n
            invariant
                i <= n,
                n == entries@.len(),
                self@ == index_of_entries(entries@.take(i as int)),
            decreases n - i,
        {
            let e = entries[i];
            self.set(e.0, e.1, e.2);
            proof {
                let t = entries@.take(i + 1 as int);
                assert(t.drop_last() =~= entries@.take(i as int));
                assert(t.last() == entries@[i as int]);
            }
            i = i + 1;
        }
        proof {
            assert(entries@.take(n as int) =~= entries@);
        }
    }

    /// The entity and tile type at a coordinate, if the latest load put
    /// a tile there.
    pub fn get(&self, coords: GridCoords) -> (r: Option<(u64, TileType)>)
        ensures
            r == if self@.contains_key(coords) {
                Some(self@[coords])
            } else {
                None::<(u64, TileType)>
            },
    {
        let k = Self::key(coords);
        match self.index.get(&k) {
            Some(v) => Some(*v),
            None => None,
        }
    }

    /// The entity at a coordinate, if any.
    pub fn get_entity(&self, coords: GridCoords) -> (r: Option<u64>)
        ensures
            r == if self@.contains_key(coords) {
                Some(self@[coords].0)
            } else {
                None::<u64>
            },
    {
        match self.get(coords) {
            Some(v) => Some(v.0),
            None => None,
        }
    }

    /// The tile type at a coordinate, if any.
    pub fn get_type(&self, coords: GridCoords) -> (r: Option<TileType>)
        ensures
            r == if self@.contains_key(coords) {
                Some(self@[coords].1)
            } else {
                None::<TileType>
            },
    {
        match self.get(coords) {
            Some(v) => Some(v.1),
            None => None,
        }
    }
}

/// Two cells are adjacent when they differ by one step along exactly one
/// axis.
pub open spec fn adjacent(a: GridCoords, b: GridCoords) -> bool {
    (a.x == b.x && (a.y - b.y == 1 || b.y - a.y == 1)) || (a.y == b.y && (a.x - b.x == 1 || b.x
        - a.x == 1))
}

/// Whether some cell of `land` lies next to `c`.
pub open spec fn has_adjacent_land(land: Seq<GridCoords>, c: GridCoords) -> bool {
    exists|i: int| 0 <= i < land.len() && adjacent(land[i], c)
}

pub(crate) proof fn lemma_push_contains<A>(s: Seq<A>, v: A, c: A)
    ensures
        s.push(v).contains(c) <==> s.contains(c) || c == v,
{
    if s.push(v).contains(c) {
        let j = choose|j: int| 0 <= j < s.push(v).len() && s.push(v)[j] == c;
        if j < s.len() {
            assert(s[j] == c);
        }
    }
    if s.contains(c) {
        let j = choose|j: int| 0 <= j < s.len() && s[j] == c;
        assert(s.push(v)[j] == c);
    }
    assert(s.push(v)[s.len() as int] == v);
}

fn is_adjacent(a: GridCoords, b: GridCoords) -> (r: bool)
    ensures
        r == adjacent(a, b),
{
    let ax = a.x as i64;
    let ay = a.y as i64;
    let bx = b.x as i64;
    let by = b.y as i64;
    (ax == bx && (ay - by == 1 || by - ay == 1)) || (ay == by && (ax - bx == 1 || bx - ax == 1))
}

fn scan_adjacent(land: &Vec<GridCoords>, c: GridCoords) -> (r: bool)
    ensures
        r == has_adjacent_land(land@, c),
{
    let mut i: usize = 0;
    while i < land.len()
        invariant
            i <= land@.len(),
            forall|j: int| 0 <= j < i ==> !adjacent(land@[j], c),
        decreases land@.len() - i,
    {
        if is_adjacent(land[i], c) {
            return true;
        }
        i = i + 1;
    }
    false
}

/// The water cells that abut land, in the order `water` lists them.
pub open spec fn boundary_of(water: Seq<GridCoords>, land: Seq<GridCoords>) -> Seq<GridCoords> {
    water.filter(|c: GridCoords| has_adjacent_land(land, c))
}

/// The water cells that abut land: those of `water` with a four-neighbour
/// in `land`. Used to fence walkable ground off the water after a level
/// load.
pub fn water_boundaries(water: &Vec<GridCoords>, land: &Vec<GridCoords>) -> (r: Vec<GridCoords>)
    ensures
        r@ == boundary_of(water@, land@),
        forall|c: GridCoords| #[trigger]
            r@.contains(c) <==> water@.contains(c) && has_adjacent_land(land@, c),
{
    let mut out: Vec<GridCoords> = Vec::new();
    proof {
        reveal_with_fuel(Seq::filter, 2);
        assert(water@.take(0) =~= Seq::<GridCoords>::empty());
    }
    let mut i: usize = 0;
    while i < water.len()
        invariant
            i <= water@.len(),
            out@ == boundary_of(water@.take(i as int), land@),
            forall|c: GridCoords| #[trigger]
                out@.contains(c) <==> water@.take(i as int).contains(c) && has_adjacent_land(
                land@, c),
        decreases water@.len() - i,
    {
        let w = water[i];
        let ghost prev = out@;
        let found = scan_adjacent(land, w);
        if found {
            out.push(w);
        }
        proof {
            let t = water@.take(i + 1 as int);
            assert(t =~= water@.take(i as int).push(w));
            assert(t.drop_last() =~= water@.take(i as int));
            reveal_with_fuel(Seq::filter, 2);
            assert(boundary_of(t, land@) == if has_adjacent_land(land@, w) {
                boundary_of(t.drop_last(), land@).push(w)
            } else {
                boundary_of(t.drop_last(), land@)
            });
            assert forall|c: GridCoords| #[trigger]
                out@.contains(c) <==> t.contains(c) && has_adjacent_land(land@, c) by {
                lemma_push_contains(water@.take(i as int), w, c);
                if found {
                    lemma_push_contains(prev, w, c);
                }
            }
        }
        i = i + 1;
    }
    proof {
        assert(water@.take(water@.len() as int) =~= water@);
    }
    out
}

} // verus!

use std::collections::HashMap;

use farmer::controls::{movement_delta, Direction};
use farmer::daycycle::{DayCycle, NewDayEvent, TimeMode, DAY_LEN_US};
use farmer::grass::{apply_textures, Arability, FarmStage, Farmland, Grass};
use farmer::housing::try_sleep;
use farmer::interface::{arability_readout, tool_activate, tool_cycle, tool_deactivate, Interface};
use farmer::player::Player;
use farmer::tools::Tool;
use farmer::world::{water_boundaries, GridCoords, TileType, WorldIndex};

fn fp(world_units: i64) -> i64 {
    world_units * 256
}

fn demo_index() -> WorldIndex {
    let mut index = WorldIndex::new();
    index.rebuild(&vec![
        (GridCoords { x: 0, y: 0 }, 10, TileType::Water),
        (GridCoords { x: 1, y: 1 }, 11, TileType::Grass),
        (GridCoords { x: 2, y: 1 }, 12, TileType::Housing),
        (GridCoords { x: 3, y: 1 }, 13, TileType::Road),
    ]);
    index
}

#[test]
fn tile_type_codes() {
    assert_eq!(TileType::Water.index(), 1);
    assert_eq!(TileType::Grass.index(), 2);
    assert_eq!(TileType::Housing.index(), 3);
    assert_eq!(TileType::Road.index(), 4);
}

#[test]
fn tile_type_try_from_inverts_codes() {
    assert_eq!(TileType::try_from(1), Ok(TileType::Water));
    assert_eq!(TileType::try_from(2), Ok(TileType::Grass));
    assert_eq!(TileType::try_from(3), Ok(TileType::Housing));
    assert_eq!(TileType::try_from(4), Ok(TileType::Road));
    assert_eq!(TileType::try_from(0), Err(()));
    assert_eq!(TileType::try_from(5), Err(()));
    assert_eq!(TileType::try_from(1000), Err(()));
}

#[test]
fn index_lookup_after_rebuild() {
    let index = demo_index();
    assert_eq!(
        index.get(GridCoords { x: 1, y: 1 }),
        Some((11, TileType::Grass))
    );
    assert_eq!(index.get_entity(GridCoords { x: 2, y: 1 }), Some(12));
    assert_eq!(
        index.get_type(GridCoords { x: 3, y: 1 }),
        Some(TileType::Road)
    );
    assert_eq!(index.get(GridCoords { x: 9, y: 9 }), None);
}

#[test]
fn index_duplicate_coordinate_last_wins() {
    let mut index = WorldIndex::new();
    index.rebuild(&vec![
        (GridCoords { x: 4, y: 4 }, 20, TileType::Grass),
        (GridCoords { x: 4, y: 4 }, 21, TileType::Road),
    ]);
    assert_eq!(
        index.get(GridCoords { x: 4, y: 4 }),
        Some((21, TileType::Road))
    );
}

#[test]
fn index_rebuild_drops_stale_entries() {
    let mut index = demo_index();
    index.rebuild(&vec![(GridCoords { x: 5, y: 5 }, 30, TileType::Grass)]);
    assert_eq!(index.get(GridCoords { x: 1, y: 1 }), None);
    assert_eq!(index.get(GridCoords { x: 0, y: 0 }), None);
    assert_eq!(
        index.get(GridCoords { x: 5, y: 5 }),
        Some((30, TileType::Grass))
    );
}

#[test]
fn index_set_overwrites_in_place() {
    let mut index = demo_index();
    index.set(GridCoords { x: 1, y: 1 }, 40, TileType::Water);
    assert_eq!(
        index.get(GridCoords { x: 1, y: 1 }),
        Some((40, TileType::Water))
    );
}

#[test]
fn negative_coordinates_are_distinct() {
    let mut index = WorldIndex::new();
    index.rebuild(&vec![
        (GridCoords { x: -1, y: 2 }, 50, TileType::Grass),
        (GridCoords { x: 1, y: -2 }, 51, TileType::Road),
    ]);
    assert_eq!(
        index.get(GridCoords { x: -1, y: 2 }),
        Some((50, TileType::Grass))
    );
    assert_eq!(
        index.get(GridCoords { x: 1, y: -2 }),
        Some((51, TileType::Road))
    );
    assert_eq!(index.get(GridCoords { x: -1, y: -2 }), None);
}

#[test]
fn water_boundaries_touch_land_only() {
    let water = vec![
        GridCoords { x: 0, y: 0 },
        GridCoords { x: 0, y: 1 },
        GridCoords { x: 5, y: 5 },
    ];
    let land = vec![GridCoords { x: 1, y: 0 }, GridCoords { x: 1, y: 1 }];
    let b = water_boundaries(&water, &land);
    assert!(b.contains(&GridCoords { x: 0, y: 0 }));
    assert!(b.contains(&GridCoords { x: 0, y: 1 }));
    assert!(!b.contains(&GridCoords { x: 5, y: 5 }));
    assert_eq!(b.len(), 2);
}

#[test]
fn cursor_resolves_to_grid_cell() {
    let iface = Interface {
        cursor: (fp(20), fp(20)),
    };
    assert_eq!(
        iface.cursor_grid_coords(),
        GridCoords { x: 1, y: 1 }
    );
}

#[test]
fn cursor_rounding_rule() {
    // round((cursor - 8) / 16), ties away from zero
    let cases = [
        (0i64, -1i32), // -0.5 rounds away from zero
        (fp(8), 0),
        (fp(16), 1),  // (16-8)/16 = 0.5 rounds up
        (fp(15), 0),  // 0.4375 rounds down
        (fp(24), 1),
        (fp(-8), -1), // -1.0
        (fp(-16), -2), // -1.5 rounds away from zero
        (fp(-15), -1), // -1.4375 rounds toward -1
    ];
    for (cursor, cell) in cases {
        let iface = Interface { cursor: (cursor, 0) };
        let c = iface.cursor_grid_coords();
        assert_eq!(c.x, cell, "cursor {cursor}");
        assert_eq!(c.y, -1); // the y axis stays at -0.5, away from zero
    }
}

#[test]
fn selector_snaps_to_tile_centre() {
    let iface = Interface {
        cursor: (fp(20), fp(20)),
    };
    assert_eq!(iface.selector_pos(), (fp(24), fp(24)));
    let iface = Interface {
        cursor: (fp(16), fp(-20)),
    };
    assert_eq!(iface.selector_pos(), (fp(8), fp(-24)));
}

#[test]
fn selection_takes_grass_only() {
    let index = demo_index();
    let over_grass = Interface {
        cursor: (fp(24), fp(24)),
    };
    assert_eq!(over_grass.selected_grass(&index), Some(11));
    assert_eq!(over_grass.selected_tile(&index), Some(TileType::Grass));
    let over_housing = Interface {
        cursor: (fp(40), fp(24)),
    };
    assert_eq!(over_housing.selected_grass(&index), None);
    assert_eq!(over_housing.selected_tile(&index), Some(TileType::Housing));
    let off_level = Interface {
        cursor: (fp(200), fp(200)),
    };
    assert_eq!(off_level.selected_grass(&index), None);
    assert_eq!(off_level.selected_tile(&index), None);
}

#[test]
fn tool_activate_hits_selected_tile_once() {
    let index = demo_index();
    let iface = Interface {
        cursor: (fp(24), fp(24)),
    };
    let mut tiles: HashMap<u64, Grass> = HashMap::new();
    tiles.insert(11, Grass::new());
    let harvested = tool_activate(&Tool::Cultivate, &iface, &index, &mut tiles, true);
    assert_eq!(harvested, 0);
    assert_eq!(tiles[&11].farmland, Some(Farmland(FarmStage::Empty)));
}

#[test]
fn tool_activate_needs_primary_held() {
    let index = demo_index();
    let iface = Interface {
        cursor: (fp(24), fp(24)),
    };
    let mut tiles: HashMap<u64, Grass> = HashMap::new();
    tiles.insert(11, Grass::new());
    tool_activate(&Tool::Cultivate, &iface, &index, &mut tiles, false);
    assert_eq!(tiles[&11].farmland, None);
}

#[test]
fn tool_activate_misses_other_tiles() {
    let index = demo_index();
    let over_housing = Interface {
        cursor: (fp(40), fp(24)),
    };
    let mut tiles: HashMap<u64, Grass> = HashMap::new();
    tiles.insert(11, Grass::new());
    tool_activate(&Tool::Cultivate, &over_housing, &index, &mut tiles, true);
    assert_eq!(tiles[&11].farmland, None);
}

#[test]
fn tool_deactivate_undoes_cultivation() {
    let index = demo_index();
    let iface = Interface {
        cursor: (fp(24), fp(24)),
    };
    let mut tiles: HashMap<u64, Grass> = HashMap::new();
    let mut g = Grass::new();
    g.cultivate();
    g.water();
    tiles.insert(11, g);
    let undone = tool_deactivate(&Tool::Cultivate, &iface, &index, &mut tiles, true);
    assert!(undone);
    assert_eq!(tiles[&11].farmland, None);
    assert_eq!(tiles[&11].watered, None);
}

#[test]
fn texture_pass_covers_named_tiles_only() {
    let mut tiles: HashMap<u64, Grass> = HashMap::new();
    let mut cultivated = Grass::new();
    cultivated.cultivate();
    tiles.insert(1, cultivated);
    let mut stale = Grass::new();
    stale.texture = 160;
    tiles.insert(2, stale);
    tiles.insert(3, stale);
    apply_textures(&mut tiles, &vec![1, 2, 1]);
    assert_eq!(tiles[&1].texture, 80);
    assert_eq!(tiles[&2].texture, 31);
    assert_eq!(tiles[&3].texture, 160); // not named by the pass
}

#[test]
fn tool_cycle_press_and_modifier() {
    let mut t = Tool::Cultivate;
    tool_cycle(&mut t, false, false);
    assert_eq!(t, Tool::Cultivate);
    tool_cycle(&mut t, true, false);
    assert_eq!(t, Tool::Plant);
    tool_cycle(&mut t, true, true);
    assert_eq!(t, Tool::Cultivate);
}

#[test]
fn arability_readout_states() {
    let index = demo_index();
    let iface = Interface {
        cursor: (fp(24), fp(24)),
    };
    let mut tiles: HashMap<u64, Grass> = HashMap::new();
    let mut g = Grass::new();
    g.assign_arability(Arability(730000));
    tiles.insert(11, g);
    assert_eq!(arability_readout(&iface, &index, &tiles), Some(Some(73)));
    tiles.insert(11, Grass::new());
    assert_eq!(arability_readout(&iface, &index, &tiles), Some(None));
    let off = Interface {
        cursor: (fp(200), fp(200)),
    };
    assert_eq!(arability_readout(&off, &index, &tiles), None);
}

#[test]
fn day_cycle_reaches_dusk_and_waits() {
    let mut day = DayCycle::new();
    assert_eq!(day.mode, TimeMode::Day);
    assert_eq!(day.tick(DAY_LEN_US / 4), None);
    assert_eq!(day.daytime, DAY_LEN_US / 4);
    assert_eq!(day.tick(DAY_LEN_US / 2), None);
    assert_eq!(day.daytime, DAY_LEN_US / 2);
    assert_eq!(day.mode, TimeMode::Pending);
    // pending time stands still
    assert_eq!(day.tick(DAY_LEN_US), None);
    assert_eq!(day.daytime, DAY_LEN_US / 2);
    assert_eq!(day.mode, TimeMode::Pending);
}

#[test]
fn day_cycle_night_rolls_over_to_new_day() {
    let mut day = DayCycle::new();
    day.tick(DAY_LEN_US / 2);
    day.sleep();
    assert_eq!(day.mode, TimeMode::Night);
    // night runs 24 times as fast: half a day passes in 1/48th
    assert_eq!(day.tick(DAY_LEN_US / 96), None);
    assert_eq!(day.tick(DAY_LEN_US / 96 + 1), Some(NewDayEvent));
    assert_eq!(day.mode, TimeMode::Day);
    assert_eq!(day.daytime, 0);
    assert_eq!(day.day, 2);
}

#[test]
fn sleeping_needs_housing_click() {
    let index = demo_index();
    let mut day = DayCycle::new();
    let over_grass = Interface {
        cursor: (fp(24), fp(24)),
    };
    assert!(!try_sleep(&over_grass, &index, &mut day, true));
    assert_eq!(day.mode, TimeMode::Day);
    let over_housing = Interface {
        cursor: (fp(40), fp(24)),
    };
    assert!(!try_sleep(&over_housing, &index, &mut day, false));
    assert_eq!(day.mode, TimeMode::Day);
    assert!(try_sleep(&over_housing, &index, &mut day, true));
    assert_eq!(day.mode, TimeMode::Night);
}

#[test]
fn direction_from_movement() {
    assert_eq!(Direction::from((-1, 0)), Direction::Left);
    assert_eq!(Direction::from((1, 0)), Direction::Right);
    assert_eq!(Direction::from((0, 1)), Direction::Up);
    assert_eq!(Direction::from((0, -1)), Direction::Down);
    assert_eq!(Direction::from((0, 0)), Direction::Down);
    assert_eq!(Direction::from((-1, 1)), Direction::Left);
    assert_eq!(Direction::default(), Direction::Down);
}

#[test]
fn movement_delta_from_keys() {
    assert_eq!(movement_delta(false, false, false, false), (0, 0));
    assert_eq!(movement_delta(true, false, false, true), (-1, -1));
    assert_eq!(movement_delta(false, true, true, false), (1, 1));
    assert_eq!(movement_delta(true, true, true, true), (0, 0));
}

#[test]
fn direction_atlas_table() {
    assert_eq!(Direction::Left.atlas_index(), 0);
    assert_eq!(Direction::Down.atlas_index(), 1);
    assert_eq!(Direction::Up.atlas_index(), 2);
    assert_eq!(Direction::Right.atlas_index(), 3);
}

#[test]
fn player_walk_cycle() {
    let mut p = Player::new();
    assert_eq!(p.sprite_index(), 1); // facing down, at rest
    p.direction = Direction::Right;
    p.animate(true, true);
    assert_eq!(p.phase, 4);
    assert_eq!(p.sprite_index(), 7);
    p.animate(true, false);
    assert_eq!(p.phase, 4);
    p.animate(true, true);
    assert_eq!(p.phase, 8);
    p.animate(true, true);
    assert_eq!(p.phase, 0);
    p.animate(false, true);
    assert_eq!(p.phase, 0);
}

//! Tile-world farming core: a spatial index over grid tiles, a per-tile
//! farming state machine with a derived texture index, a cyclic tool
//! selector, and the interaction rules that tie cursor, index and tool
//! together. The host engine (rendering, input polling, physics, asset
//! loading) stays outside; this crate works on plain values.

pub mod controls;
pub mod daycycle;
pub mod grass;
pub mod housing;
pub mod interface;
pub mod player;
pub mod tools;
pub mod world;

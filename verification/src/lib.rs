//! Movement and collision core of a small platform game.
//!
//! Bodies are axis-aligned rectangles on an integer grid. They move against
//! static obstacles one whole unit at a time and stop at the first unit that
//! is blocked, so that no body ever enters or passes an obstacle. Distances
//! below one grid unit are counted in millionths of a unit, and time in
//! microseconds, so that every quantity is an integer and every rule can be
//! stated exactly.
//!
//! The library draws nothing, plays nothing and reads no keys: a tick takes
//! the controls and the time that has passed, and gives back what happened.

pub mod units;
pub mod rect;
pub mod solid;
pub mod actor;
pub mod actor_lemmas;
pub mod raster;
pub mod extraction;
pub mod extraction_lemmas;
pub mod lantern;
pub mod player;
pub mod game;
pub mod player_lemmas;
pub mod game_lemmas;

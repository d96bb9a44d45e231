use vstd::prelude::*;

pub mod frame;
pub mod game;
pub mod invaders;
pub mod player;
pub mod render;
mod rng;
pub mod shot;
pub mod timer;

verus! {

/// Width of the playfield, in columns.
pub const NUM_COLS: usize = 40;

/// Height of the playfield, in rows. An invader whose row equals `NUM_ROWS`
/// has left the grid and is dead.
pub const NUM_ROWS: usize = 20;

/// Milliseconds between two descent steps of an invader.
pub const INVADER_STEP_MS: u64 = 1000;

/// Milliseconds between two upward steps of a shot in flight.
pub const SHOT_STEP_MS: u64 = 50;

/// Base interval of the player's idle animation timer, in milliseconds.
pub const PLAYER_STEP_MS: u64 = 1000;

/// How long an explosion animation lasts, in milliseconds; when this timer
/// fires the exploding entity is dead.
pub const EXPLOSION_MS: u64 = 250;

/// One tick in `SPAWN_ODDS` spawns a new invader: the per-tick spawn
/// probability is `1 / SPAWN_ODDS`.
pub const SPAWN_ODDS: usize = 1000;

} // verus!

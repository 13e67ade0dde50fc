//! A tile-based mining game: a grid of tiles, a player with a small economy,
//! an elevator in a fixed shaft, and the per-tick rules that tie them together.
//! `game` and `old_game` hold the first, smaller prototypes of the same idea.

pub mod constants;
pub mod game;
pub mod model;
pub mod old_game;
pub mod random;
pub mod systems;

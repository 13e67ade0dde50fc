pub mod elevator;
pub mod grid;
pub mod player;

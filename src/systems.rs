pub mod elevator;
pub mod input;
pub mod player;
pub mod render;

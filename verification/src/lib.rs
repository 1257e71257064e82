//! Core logic of a grid snake game: wrap-around geometry, collision
//! testing, fruit placement and the per-tick state machine.

pub mod fruit;
pub mod grid;
pub mod player;
pub mod render;

//! Gameplay rules of a small tile-based game: the load-phase machine, the map
//! grid with movement validation, the cursor-to-tile mapping, and the chain
//! weapon's targeting along a row or a column.

pub mod chain;
pub mod cursor;
pub mod game;
pub mod map;
pub mod player;
pub mod state;
pub mod tile;

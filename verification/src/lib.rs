//! Rules of a small tile-based farming game: the painted map, the day/night
//! clock with its lighting, and what a tool does to a tile.
//!
//! Everything here works on integers. Lengths are in whole tiles or whole
//! world units, time is in clock ticks, and light levels are exact fractions.

pub mod game;
pub mod grid;
pub mod lighting;
pub mod map;
pub mod menu;
pub mod music_player;
pub mod painter;
pub mod player;
pub mod spriteanims;

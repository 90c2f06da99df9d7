//! Turn resolution engine of a small tile-based dungeon game.
//!
//! The player walks a grid, bumps into creatures, gathers and uses items, and a
//! selectable win/loss condition is evaluated after every turn. Every state
//! change is described by a spec function over the views of the data types, and
//! every executable function is proved to compute exactly that change.

pub mod dice;
pub mod game_condition;
pub mod item;
pub mod laws;
pub mod messages;
pub mod npc;
pub mod placement;
pub mod player;
pub mod scan;
pub mod session;
pub mod state;
pub mod text;
pub mod world;

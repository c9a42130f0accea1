//! A small real-time 2D engine core: an entity store with component queries,
//! the per-frame simulation systems, and a render queue with a text cache.
//!
//! All coordinates are whole numbers of caller-chosen units and all durations
//! are whole microseconds, so every result is exact and reproducible.
//!
//! The engine does no input or output of its own. A driver takes the events
//! of a window, updates the game, and hands back what is to be drawn; the
//! program around it owns the window and the drawing backend.

pub mod column;
pub mod components;
pub mod engine;
pub mod format;
pub mod guarantees;
pub mod input;
pub mod motion;
pub mod pong;
pub mod prelude;
pub mod query;
pub mod render;
pub mod simulation;
pub mod systems;
pub mod time;
pub mod world;

//! The names that a game needs first.
//!
//! A game implements [`Game`], is handed to [`App::driver`] together with an
//! [`EngineConfig`], and from then on meets the engine through the
//! [`Engine`] context that every callback receives.

pub use crate::engine::{App, Engine, EngineConfig, Game};

//! The engine around a game: its configuration, the context that a game
//! works on, the interface that a game implements, and the driver that
//! turns window events into frames.

pub mod app;
pub mod config;
pub mod context;
pub mod game;

pub use app::{Directive, EngineApp, FramePhase};
pub use config::{App, EngineConfig};
pub use context::Engine;
pub use game::{Game, WindowEvent};

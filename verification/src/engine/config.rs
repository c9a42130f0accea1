//! Engine configuration and the entry point.

use crate::engine::app::{EngineApp, FramePhase};
use crate::engine::game::Game;
use vstd::prelude::*;
use vstd::string::StringExecFns;

verus! {

/// Width of the window when none is asked for.
pub const DEFAULT_WINDOW_WIDTH: u32 = 800;

/// Height of the window when none is asked for.
pub const DEFAULT_WINDOW_HEIGHT: u32 = 600;

/// What the engine is started with: the window's title, which is only
/// displayed, and the window's extents, which are both greater than zero in
/// every configuration that the builders make.
#[derive(Clone, Debug)]
pub struct EngineConfig {
    pub window_title: String,
    pub window_width: u32,
    pub window_height: u32,
}

impl Default for EngineConfig {
    fn default() -> (config: Self)
        ensures
            config.window_title@ == "Wakey 2D Engine"@,
            config.window_width == DEFAULT_WINDOW_WIDTH,
            config.window_height == DEFAULT_WINDOW_HEIGHT,
    {
        EngineConfig {
            window_title: String::from_str("Wakey 2D Engine"),
            window_width: DEFAULT_WINDOW_WIDTH,
            window_height: DEFAULT_WINDOW_HEIGHT,
        }
    }
}

impl EngineConfig {
    /// The default configuration.
    pub fn new() -> (config: Self)
        ensures
            config.window_title@ == "Wakey 2D Engine"@,
            config.window_width == DEFAULT_WINDOW_WIDTH,
            config.window_height == DEFAULT_WINDOW_HEIGHT,
    {
        EngineConfig {
            window_title: String::from_str("Wakey 2D Engine"),
            window_width: DEFAULT_WINDOW_WIDTH,
            window_height: DEFAULT_WINDOW_HEIGHT,
        }
    }

    /// The configuration with another title.
    pub fn with_title(self, title: &str) -> (config: Self)
        ensures
            config.window_title@ == title@,
            config.window_width == self.window_width,
            config.window_height == self.window_height,
    {
        let mut config = self;
        config.window_title = String::from_str(title);
        config
    }

    /// The configuration with other extents. Extents must be greater than
    /// zero: a request with a zero width or height leaves the extents as
    /// they are.
    pub fn with_size(self, width: u32, height: u32) -> (config: Self)
        ensures
            config.window_title == self.window_title,
            width > 0 && height > 0 ==> config.window_width == width && config.window_height
                == height,
            !(width > 0 && height > 0) ==> config.window_width == self.window_width
                && config.window_height == self.window_height,
    {
        let mut config = self;
        if width > 0 && height > 0 {
            config.window_width = width;
            config.window_height = height;
        }
        config
    }
}

/// Entry point for running the engine with a game.
pub struct App;

impl App {
    /// Makes the driver for `game`. The caller's event loop feeds it the
    /// window's events and carries out the directives that it answers with.
    pub fn driver<G: Game>(config: EngineConfig, game: G) -> (driver: EngineApp<G>)
        ensures
            driver.engine is None,
            driver.config == config,
            driver.game == game,
            driver.last_frame_time is None,
            !driver.initialized,
            driver.dropped_frames == 0,
            driver.phase == FramePhase::Idle,
    {
        EngineApp::new(config, game)
    }
}

} // verus!

//! The game instance that the application drives.
use vstd::prelude::*;

verus! {

/// The settings the application starts with.
#[derive(Clone, Copy, PartialEq, Eq, Structural, Debug)]
pub struct ApplicationConfig {
    pub width: u32,
    pub height: u32,
}

/// A running game.
pub struct GameInstance {
    pub app_config: ApplicationConfig,
}

impl GameInstance {
    /// A game with the given settings.
    pub fn create(app_config: ApplicationConfig) -> (g: Self)
        ensures
            g.app_config == app_config,
    {
        Self { app_config }
    }

    /// Prepares the game; there is nothing to prepare yet.
    pub fn init(&mut self)
        ensures
            final(self).app_config == old(self).app_config,
    {
    }

    /// Reacts to a new window size; the game keeps its settings.
    pub fn on_window_resize(&mut self, new_width: u16, new_height: u16)
        ensures
            final(self).app_config == old(self).app_config,
    {
    }
}

} // verus!

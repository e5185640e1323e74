//! The resolved per-game configuration: which wrapper tools are enabled,
//! the compositor's settings, the frame-rate cap, and the environment
//! overrides applied to the launched game.

pub mod config_file;
pub mod default_values;
pub mod gamescope;
pub mod launch;
pub mod screen_resolution;
pub mod vulkan_driver;

pub use config_file::GameConfigError;
pub use config_file::GameConfigFile;
pub use gamescope::gamescope_defaults;
pub use gamescope::Gamescope;
pub use gamescope::GamescopeBackend;
pub use launch::Launch;
pub use screen_resolution::ScreenResolution;
pub use vulkan_driver::VulkanDriver;

use vstd::prelude::*;

verus! {

#[derive(Debug, Clone)]
pub struct GameConfig {
    pub gamemode: bool,
    pub mangohud: bool,
    pub vulkan_driver: VulkanDriver,
    pub fps_limit: u32,
    pub gamescope: Option<Gamescope>,
    pub environment_variables: Vec<(String, String)>,
}

impl Default for GameConfig {
    /// The configuration used when a game has no configuration file.
    fn default() -> (r: GameConfig)
        ensures
            r.gamemode == true,
            r.mangohud == true,
            r.vulkan_driver == VulkanDriver::Default,
            r.fps_limit == 0,
            r.gamescope matches Some(g) && g == gamescope_defaults(),
            r.environment_variables@.len() == 0,
    {
        GameConfig {
            gamemode: true,
            mangohud: true,
            vulkan_driver: VulkanDriver::Default,
            fps_limit: 0,
            gamescope: Some(Gamescope::default()),
            environment_variables: Vec::new(),
        }
    }
}

impl GameConfig {
    /// Whether the configuration wraps the game in the compositor.
    pub fn compositor_enabled(&self) -> (r: bool)
        ensures
            r == (self.gamescope is Some),
    {
        self.gamescope.is_some()
    }

    /// Whether the configuration asks for display discovery: the compositor
    /// is enabled and its overlay fix is on.
    pub fn needs_display_discovery(&self) -> (r: bool)
        ensures
            r == (self.gamescope matches Some(g) && g.steam_overlay_fix),
    {
        match &self.gamescope {
            Some(g) => g.steam_overlay_fix,
            None => false,
        }
    }
}

} // verus!

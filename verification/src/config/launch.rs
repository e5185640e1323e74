//! The launch section of a configuration file, with every wrapper toggle
//! present and the compositor always configured.

use crate::config::gamescope_defaults;
use crate::config::Gamescope;
use crate::config::VulkanDriver;
use vstd::prelude::*;

verus! {

#[derive(Debug, Clone)]
pub struct Launch {
    pub gamemode: bool,
    pub mangohud: bool,
    pub vulkan_driver: VulkanDriver,
    pub gamescope: Gamescope,
    pub environment_variables: Vec<(String, String)>,
}

impl Default for Launch {
    /// The launch section used when the configuration file has none.
    fn default() -> (r: Launch)
        ensures
            r.gamemode == true,
            r.mangohud == true,
            r.vulkan_driver == VulkanDriver::Amdvlk,
            r.gamescope == gamescope_defaults(),
            r.environment_variables@.len() == 0,
    {
        Launch {
            gamemode: true,
            mangohud: true,
            vulkan_driver: VulkanDriver::Amdvlk,
            gamescope: Gamescope::default(),
            environment_variables: Vec::new(),
        }
    }
}

} // verus!

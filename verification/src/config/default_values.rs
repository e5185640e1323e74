//! The values every configuration field falls back to when the game's
//! configuration file leaves it out, or when there is no file at all.

use crate::config::gamescope_defaults;
use crate::config::Gamescope;
use crate::config::ScreenResolution;
use crate::config::VulkanDriver;
use vstd::prelude::*;

verus! {

/// Whether the performance-governor wrapper is enabled by default.
pub fn gamemode() -> (r: bool)
    ensures
        r == true,
{
    true
}

/// Whether the overlay wrapper is enabled by default.
pub fn mangohud() -> (r: bool)
    ensures
        r == true,
{
    true
}

/// The Vulkan driver shim selected by default.
pub fn vulkan_driver() -> (r: VulkanDriver)
    ensures
        r == VulkanDriver::Amdvlk,
{
    VulkanDriver::Amdvlk
}

/// The compositor settings used by default.
pub fn gamescope() -> (r: Gamescope)
    ensures
        r == gamescope_defaults(),
{
    Gamescope::default()
}

/// The environment overrides applied by default: none.
pub fn environment_variables() -> (r: Vec<(String, String)>)
    ensures
        r@.len() == 0,
{
    Vec::new()
}

/// The resolution the compositor renders at by default.
pub fn source_resolution() -> (r: ScreenResolution)
    ensures
        r == ScreenResolution::Native,
{
    ScreenResolution::Native
}

/// Whether the compositor starts fullscreen by default.
pub fn start_as_fullscreen() -> (r: bool)
    ensures
        r == true,
{
    true
}

/// Whether the compositor grabs the cursor by default.
pub fn force_grab_cursor() -> (r: bool)
    ensures
        r == true,
{
    true
}

/// Whether the compositor allows tearing by default.
pub fn tearing() -> (r: bool)
    ensures
        r == true,
{
    true
}

} // verus!

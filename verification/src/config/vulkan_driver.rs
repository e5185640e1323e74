//! The Vulkan driver shim the game is launched through, if any.

use vstd::prelude::*;

verus! {

#[derive(Debug, PartialEq, Eq, Structural, Clone, Copy)]
pub enum VulkanDriver {
    Default,
    Amdvlk,
    Radv,
}

impl Default for VulkanDriver {
    /// The default driver selection: leave the system's driver alone.
    fn default() -> (r: Self)
        ensures
            r == VulkanDriver::Default,
    {
        VulkanDriver::Default
    }
}

impl VulkanDriver {
    /// The name of the wrapper tool that selects this driver, or `None` when
    /// the system default is kept and no wrapper is needed.
    pub fn as_command(&self) -> (r: Option<&str>)
        ensures
            match *self {
                VulkanDriver::Default => r is None,
                VulkanDriver::Amdvlk => r matches Some(s) && s@ == "vk_amdvlk"@,
                VulkanDriver::Radv => r matches Some(s) && s@ == "vk_radv"@,
            },
    {
        match self {
            VulkanDriver::Default => None,
            VulkanDriver::Amdvlk => Some("vk_amdvlk"),
            VulkanDriver::Radv => Some("vk_radv"),
        }
    }
}

} // verus!

//! The few values this crate takes from vulkanalia.
use vstd::prelude::*;

verus! {

/// The name of the debug-utilities instance extension.
pub open spec fn debug_utils_name() -> Seq<char> {
    "VK_EXT_debug_utils"@
}

/// The name of the swapchain device extension.
pub open spec fn swapchain_name() -> Seq<char> {
    "VK_KHR_swapchain"@
}

/// Relies on vulkanalia::vk::make_version: the major number shifted by 22,
/// the minor number by 12, and the patch number, or-ed together.
#[verifier::external_body]
pub(crate) fn make_version(major: u32, minor: u32, patch: u32) -> (r: u32)
    ensures
        r == ((major << 22u32) | (minor << 12u32) | patch),
{
    vulkanalia::vk::make_version(major, minor, patch)
}

/// Relies on vulkanalia::vk::EXT_DEBUG_UTILS_EXTENSION, whose name is
/// `VK_EXT_debug_utils`.
#[verifier::external_body]
pub(crate) fn debug_utils_extension() -> (r: String)
    ensures
        r@ == debug_utils_name(),
{
    vulkanalia::vk::EXT_DEBUG_UTILS_EXTENSION.name.to_string_lossy().into_owned()
}

/// Relies on vulkanalia::vk::KHR_SWAPCHAIN_EXTENSION, whose name is
/// `VK_KHR_swapchain`.
#[verifier::external_body]
pub(crate) fn swapchain_extension() -> (r: String)
    ensures
        r@ == swapchain_name(),
{
    vulkanalia::vk::KHR_SWAPCHAIN_EXTENSION.name.to_string_lossy().into_owned()
}

/// Relies on vulkanalia::vk::QueueFlags: `GRAPHICS` is bit 0, and
/// `contains` tests that every bit of its argument is set.
#[verifier::external_body]
pub(crate) fn has_graphics_flag(flags: u32) -> (r: bool)
    ensures
        r == (flags & 1u32 != 0u32),
{
    vulkanalia::vk::QueueFlags::from_bits_truncate(flags).contains(vulkanalia::vk::QueueFlags::GRAPHICS)
}

} // verus!

//! Bit masks of the Vulkan API: the named bits this engine sets or tests, and
//! the subset test on a mask.
//!
//! A mask travels through the library as a plain `u32`, bit for bit what the
//! driver reports or expects.
use vstd::prelude::*;

verus! {

/// Memory that lives on the device itself.
pub const MEMORY_PROPERTY_DEVICE_LOCAL: u32 = 0x1;

/// A format that can back a depth-stencil attachment.
pub const FORMAT_FEATURE_DEPTH_STENCIL_ATTACHMENT: u32 = 0x200;

/// An image used as a depth-stencil attachment.
pub const IMAGE_USAGE_DEPTH_STENCIL_ATTACHMENT: u32 = 0x20;

/// The colour plane of an image.
pub const IMAGE_ASPECT_COLOR: u32 = 0x1;

/// The depth plane of an image.
pub const IMAGE_ASPECT_DEPTH: u32 = 0x2;

/// One sample per pixel.
pub const SAMPLE_COUNT_1: u32 = 0x1;

/// The pipeline stage of the early per-fragment tests.
pub const PIPELINE_STAGE_EARLY_FRAGMENT_TESTS: u32 = 0x100;

/// The pipeline stage that writes the final colour values.
pub const PIPELINE_STAGE_COLOR_ATTACHMENT_OUTPUT: u32 = 0x400;

/// Write access to a colour attachment.
pub const ACCESS_COLOR_ATTACHMENT_WRITE: u32 = 0x100;

/// Write access to a depth-stencil attachment.
pub const ACCESS_DEPTH_STENCIL_ATTACHMENT_WRITE: u32 = 0x400;

/// Diagnostic severities, one bit each.
pub const DEBUG_SEVERITY_VERBOSE: u32 = 0x1;

pub const DEBUG_SEVERITY_INFO: u32 = 0x10;

pub const DEBUG_SEVERITY_WARNING: u32 = 0x100;

pub const DEBUG_SEVERITY_ERROR: u32 = 0x1000;

/// Diagnostic message kinds, one bit each.
pub const DEBUG_TYPE_GENERAL: u32 = 0x1;

pub const DEBUG_TYPE_VALIDATION: u32 = 0x2;

pub const DEBUG_TYPE_PERFORMANCE: u32 = 0x4;

/// `have` holds every bit of `want`.
pub open spec fn mask_contains(have: u32, want: u32) -> bool {
    have & want == want
}

/// Subset test on two memory property masks, made by
/// `ash::vk::MemoryPropertyFlags::contains`.
///
/// Trusted: the call returns `true` exactly when every bit of `want` is set
/// in `have`.
#[verifier::external_body]
pub(crate) fn memory_properties_contain(have: u32, want: u32) -> (r: bool)
    ensures
        r == mask_contains(have, want),
{
    ash::vk::MemoryPropertyFlags::from_raw(have).contains(
        ash::vk::MemoryPropertyFlags::from_raw(want),
    )
}

/// Subset test on two format feature masks, made by
/// `ash::vk::FormatFeatureFlags::contains`.
///
/// Trusted: the call returns `true` exactly when every bit of `want` is set
/// in `have`.
#[verifier::external_body]
pub(crate) fn format_features_contain(have: u32, want: u32) -> (r: bool)
    ensures
        r == mask_contains(have, want),
{
    ash::vk::FormatFeatureFlags::from_raw(have).contains(
        ash::vk::FormatFeatureFlags::from_raw(want),
    )
}

} // verus!

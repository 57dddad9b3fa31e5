//! Plain values shared by every component.
use vstd::prelude::*;

verus! {

/// Width of the window the host opens at start, in pixels.
pub const WIDTH: u32 = 800;

/// Height of the window the host opens at start, in pixels.
pub const HEIGHT: u32 = 600;

/// A size in pixels.
#[derive(Clone, Copy, Debug, PartialEq, Eq, Structural)]
pub struct Extent2D {
    pub width: u32,
    pub height: u32,
}

/// A pixel format, by its Vulkan number.
#[derive(Clone, Copy, Debug, PartialEq, Eq, Structural)]
pub struct Format {
    pub raw: i32,
}

/// Vulkan number of the 32-bit float depth format.
pub const FORMAT_D32_SFLOAT: i32 = 126;

/// Vulkan number of the packed 24-bit depth format with 8 bits of stencil.
pub const FORMAT_D24_UNORM_S8_UINT: i32 = 129;

/// Vulkan number of the 32-bit float depth format with 8 bits of stencil.
pub const FORMAT_D32_SFLOAT_S8_UINT: i32 = 130;

/// How the texels of an image are laid out in memory.
#[derive(Clone, Copy, Debug, PartialEq, Eq, Structural)]
pub enum ImageTiling {
    /// An arrangement the driver picks for speed.
    Optimal,
    /// Row after row.
    Linear,
}

/// Whether several queue families may touch a resource at once.
#[derive(Clone, Copy, Debug, PartialEq, Eq, Structural)]
pub enum SharingMode {
    Exclusive,
    Concurrent,
}

} // verus!

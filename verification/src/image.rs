//! What the engine asks of the driver when it creates an image or a view of
//! one: always two-dimensional, one layer, one mip level, one sample.
use vstd::prelude::*;
use crate::flags::SAMPLE_COUNT_1;
use crate::render_pass::ImageLayout;
use crate::types::{Format, ImageTiling, SharingMode};

verus! {

/// A size in texels, in three dimensions.
#[derive(Clone, Copy, Debug, PartialEq, Eq, Structural)]
pub struct Extent3D {
    pub width: u32,
    pub height: u32,
    pub depth: u32,
}

/// The dimensionality of an image or of a view.
#[derive(Clone, Copy, Debug, PartialEq, Eq, Structural)]
pub enum Dimensions {
    One,
    Two,
    Three,
}

#[derive(Clone, Copy, Debug, PartialEq, Eq, Structural)]
pub struct ImageCreateInfo {
    pub image_type: Dimensions,
    pub extent: Extent3D,
    pub mip_levels: u32,
    pub array_layers: u32,
    pub format: Format,
    pub tiling: ImageTiling,
    pub initial_layout: ImageLayout,
    /// What the image will be used for, as a usage mask.
    pub usage: u32,
    pub sharing_mode: SharingMode,
    /// Samples per texel, as a sample count mask.
    pub samples: u32,
}

#[derive(Clone, Copy, Debug, PartialEq, Eq, Structural)]
pub struct ImageViewCreateInfo {
    /// Handle of the image that is viewed.
    pub image: u64,
    pub view_type: Dimensions,
    pub format: Format,
    /// The planes of the image that the view shows, as an aspect mask.
    pub aspect_mask: u32,
    pub base_mip_level: u32,
    pub level_count: u32,
    pub base_array_layer: u32,
    pub layer_count: u32,
}

/// The image of `width` by `height` texels that the engine creates for the
/// given format, tiling and usage.
pub open spec fn image_create_spec(
    width: u32,
    height: u32,
    format: Format,
    tiling: ImageTiling,
    usage: u32,
) -> ImageCreateInfo {
    ImageCreateInfo {
        image_type: Dimensions::Two,
        extent: Extent3D { width, height, depth: 1 },
        mip_levels: 1,
        array_layers: 1,
        format,
        tiling,
        initial_layout: ImageLayout::Undefined,
        usage,
        sharing_mode: SharingMode::Exclusive,
        samples: SAMPLE_COUNT_1,
    }
}

/// The view of a whole image: its only mip level and its only layer.
pub open spec fn image_view_spec(image: u64, format: Format, aspect_mask: u32) -> ImageViewCreateInfo {
    ImageViewCreateInfo {
        image,
        view_type: Dimensions::Two,
        format,
        aspect_mask,
        base_mip_level: 0,
        level_count: 1,
        base_array_layer: 0,
        layer_count: 1,
    }
}

/// Describes a two-dimensional image of `width` by `height` texels, owned by
/// one queue family, with a single layer, mip level and sample.
pub fn image_create_info(
    width: u32,
    height: u32,
    format: Format,
    tiling: ImageTiling,
    usage: u32,
) -> (info: ImageCreateInfo)
    ensures
        info == image_create_spec(width, height, format, tiling, usage),
{
    ImageCreateInfo {
        image_type: Dimensions::Two,
        extent: Extent3D { width, height, depth: 1 },
        mip_levels: 1,
        array_layers: 1,
        format,
        tiling,
        initial_layout: ImageLayout::Undefined,
        usage,
        sharing_mode: SharingMode::Exclusive,
        samples: SAMPLE_COUNT_1,
    }
}

/// Describes the two-dimensional view of all of `image` that shows the
/// planes in `aspect_mask`.
pub fn image_view_info(image: u64, format: Format, aspect_mask: u32) -> (info: ImageViewCreateInfo)
    ensures
        info == image_view_spec(image, format, aspect_mask),
{
    ImageViewCreateInfo {
        image,
        view_type: Dimensions::Two,
        format,
        aspect_mask,
        base_mip_level: 0,
        level_count: 1,
        base_array_layer: 0,
        layer_count: 1,
    }
}

} // verus!

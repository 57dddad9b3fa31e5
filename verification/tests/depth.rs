use ash::vk;
use vulkan_core::depth::{
    depth_candidates, find_depth_format, find_supported_format, format_supported,
    plan_depth_resources, DepthResource, DepthResourcePlan, FormatProperties,
    UnsupportedFormatError,
};
use vulkan_core::image::{
    image_create_info, image_view_info, Dimensions, Extent3D, ImageCreateInfo,
    ImageViewCreateInfo,
};
use vulkan_core::memory::{AllocationPlan, MemoryResource, ResourceKind};
use vulkan_core::render_pass::ImageLayout;
use vulkan_core::types::{Extent2D, Format, ImageTiling, SharingMode};

const D32: Format = Format { raw: 126 };
const D24_S8: Format = Format { raw: 129 };
const D32_S8: Format = Format { raw: 130 };
const DEPTH_ATTACHMENT: u32 = 0x200;
const SAMPLED: u32 = 0x1;

fn row(format: Format, linear: u32, optimal: u32) -> FormatProperties {
    FormatProperties { format, linear_tiling_features: linear, optimal_tiling_features: optimal }
}

fn depth_error() -> UnsupportedFormatError {
    UnsupportedFormatError { tiling: ImageTiling::Optimal, features: DEPTH_ATTACHMENT }
}

#[test]
fn candidates_are_in_order_of_preference() {
    assert_eq!(depth_candidates(), vec![D32, D32_S8, D24_S8]);
    assert_eq!(D32.raw, vk::Format::D32_SFLOAT.as_raw());
    assert_eq!(D32_S8.raw, vk::Format::D32_SFLOAT_S8_UINT.as_raw());
    assert_eq!(D24_S8.raw, vk::Format::D24_UNORM_S8_UINT.as_raw());
}

#[test]
fn most_preferred_supported_format_is_chosen() {
    let all = vec![
        row(D32, 0, DEPTH_ATTACHMENT),
        row(D32_S8, 0, DEPTH_ATTACHMENT),
        row(D24_S8, 0, DEPTH_ATTACHMENT),
    ];
    assert_eq!(find_depth_format(&all), Ok(D32));
    let without_first = vec![
        row(D32, 0, SAMPLED),
        row(D32_S8, 0, DEPTH_ATTACHMENT | SAMPLED),
        row(D24_S8, 0, DEPTH_ATTACHMENT),
    ];
    assert_eq!(find_depth_format(&without_first), Ok(D32_S8));
    let only_last = vec![row(D32, 0, 0), row(D32_S8, 0, 0), row(D24_S8, 0, DEPTH_ATTACHMENT)];
    assert_eq!(find_depth_format(&only_last), Ok(D24_S8));
}

#[test]
fn order_of_the_table_does_not_matter() {
    let table = vec![
        row(D24_S8, 0, DEPTH_ATTACHMENT),
        row(D32_S8, 0, DEPTH_ATTACHMENT),
        row(D32, 0, DEPTH_ATTACHMENT),
    ];
    assert_eq!(find_depth_format(&table), Ok(D32));
}

#[test]
fn no_supported_format_is_an_error() {
    assert_eq!(find_depth_format(&Vec::new()), Err(depth_error()));
    let table = vec![row(D32, 0, SAMPLED), row(D32_S8, 0, 0), row(D24_S8, DEPTH_ATTACHMENT, 0)];
    assert_eq!(find_depth_format(&table), Err(depth_error()));
}

#[test]
fn features_of_the_other_tiling_do_not_count() {
    let table = vec![row(D32, DEPTH_ATTACHMENT, 0), row(D24_S8, 0, DEPTH_ATTACHMENT)];
    assert_eq!(find_depth_format(&table), Ok(D24_S8));
    let candidates = vec![D32, D24_S8];
    assert_eq!(
        find_supported_format(&candidates, &table, ImageTiling::Linear, DEPTH_ATTACHMENT),
        Ok(D32)
    );
    assert_eq!(
        find_supported_format(&candidates, &table, ImageTiling::Optimal, DEPTH_ATTACHMENT),
        Ok(D24_S8)
    );
}

#[test]
fn formats_outside_the_candidates_are_never_chosen() {
    let other = Format { raw: 37 };
    let table = vec![row(other, DEPTH_ATTACHMENT, DEPTH_ATTACHMENT)];
    assert_eq!(find_depth_format(&table), Err(depth_error()));
    assert_eq!(
        find_supported_format(&vec![other], &table, ImageTiling::Optimal, DEPTH_ATTACHMENT),
        Ok(other)
    );
}

#[test]
fn every_feature_asked_for_must_be_granted() {
    let table = vec![row(D32, 0, DEPTH_ATTACHMENT), row(D24_S8, 0, DEPTH_ATTACHMENT | SAMPLED)];
    let candidates = vec![D32, D24_S8];
    let wanted = DEPTH_ATTACHMENT | SAMPLED;
    assert_eq!(
        find_supported_format(&candidates, &table, ImageTiling::Optimal, wanted),
        Ok(D24_S8)
    );
    assert!(!format_supported(&table, D32, ImageTiling::Optimal, wanted));
    assert!(format_supported(&table, D24_S8, ImageTiling::Optimal, wanted));
    assert_eq!(
        find_supported_format(&candidates, &table, ImageTiling::Linear, wanted),
        Err(UnsupportedFormatError { tiling: ImageTiling::Linear, features: wanted })
    );
}

#[test]
fn feature_test_is_that_of_the_vulkan_bindings() {
    let masks = [0u32, 0x1, 0x200, 0x201, 0x3ff, 0xffff_ffff];
    for have in masks {
        for want in masks {
            let expected = vk::FormatFeatureFlags::from_raw(have)
                .contains(vk::FormatFeatureFlags::from_raw(want));
            let table = vec![row(D32, 0, have)];
            assert_eq!(format_supported(&table, D32, ImageTiling::Optimal, want), expected);
        }
    }
}

#[test]
fn empty_candidate_list_is_an_error() {
    let table = vec![row(D32, 0, DEPTH_ATTACHMENT)];
    assert_eq!(
        find_supported_format(&Vec::new(), &table, ImageTiling::Optimal, 0),
        Err(UnsupportedFormatError { tiling: ImageTiling::Optimal, features: 0 })
    );
}

#[test]
fn selection_is_deterministic() {
    let table = vec![row(D32, 0, 0), row(D32_S8, 0, DEPTH_ATTACHMENT), row(D24_S8, 0, 0x200)];
    let first = find_depth_format(&table);
    for _ in 0..10 {
        assert_eq!(find_depth_format(&table), first);
    }
    // A table that says the same of the three candidates gives the same answer.
    let mut longer = table.clone();
    longer.push(row(Format { raw: 44 }, 0x3ff, 0x3ff));
    assert_eq!(find_depth_format(&longer), first);
    assert_eq!(first, Ok(D32_S8));
}

#[test]
fn depth_image_is_planned_for_the_swapchain_extent() {
    let table = vec![row(D32, 0, DEPTH_ATTACHMENT)];
    let plan = plan_depth_resources(&table, Extent2D { width: 800, height: 600 });
    assert_eq!(
        plan,
        Ok(DepthResourcePlan {
            format: D32,
            image: ImageCreateInfo {
                image_type: Dimensions::Two,
                extent: Extent3D { width: 800, height: 600, depth: 1 },
                mip_levels: 1,
                array_layers: 1,
                format: D32,
                tiling: ImageTiling::Optimal,
                initial_layout: ImageLayout::Undefined,
                usage: vk::ImageUsageFlags::DEPTH_STENCIL_ATTACHMENT.as_raw(),
                sharing_mode: SharingMode::Exclusive,
                samples: vk::SampleCountFlags::TYPE_1.as_raw(),
            },
            memory_properties: vk::MemoryPropertyFlags::DEVICE_LOCAL.as_raw(),
            aspect_mask: vk::ImageAspectFlags::DEPTH.as_raw(),
        })
    );
    assert_eq!(
        plan_depth_resources(&Vec::new(), Extent2D { width: 800, height: 600 }),
        Err(depth_error())
    );
}

#[test]
fn image_is_two_dimensional_with_one_layer_level_and_sample() {
    let info = image_create_info(640, 480, D24_S8, ImageTiling::Linear, 0x20);
    assert_eq!(info.image_type, Dimensions::Two);
    assert_eq!(info.extent, Extent3D { width: 640, height: 480, depth: 1 });
    assert_eq!(info.mip_levels, 1);
    assert_eq!(info.array_layers, 1);
    assert_eq!(info.samples, 1);
    assert_eq!(info.format, D24_S8);
    assert_eq!(info.tiling, ImageTiling::Linear);
    assert_eq!(info.usage, 0x20);
    assert_eq!(info.initial_layout, ImageLayout::Undefined);
    assert_eq!(info.sharing_mode, SharingMode::Exclusive);
}

#[test]
fn view_shows_the_whole_image() {
    assert_eq!(
        image_view_info(77, D32, 0x2),
        ImageViewCreateInfo {
            image: 77,
            view_type: Dimensions::Two,
            format: D32,
            aspect_mask: 0x2,
            base_mip_level: 0,
            level_count: 1,
            base_array_layer: 0,
            layer_count: 1,
        }
    );
}

#[test]
fn depth_resource_must_be_an_image() {
    let allocation = AllocationPlan { allocation_size: 1024, memory_type_index: 0, bind_offset: 0 };
    let extent = Extent2D { width: 800, height: 600 };
    let image = MemoryResource::new(ResourceKind::Image, 5, 6, allocation);
    let depth = DepthResource::new(image, 7, D32, extent);
    match depth {
        Ok(depth) => {
            assert_eq!(depth.image_handle(), 5);
            assert_eq!(depth.memory_handle(), 6);
            assert_eq!(depth.view(), 7);
            assert_eq!(depth.format(), D32);
            assert_eq!(depth.extent(), extent);
        }
        Err(_) => panic!("an image was refused"),
    }
    let buffer = MemoryResource::new(ResourceKind::Buffer, 8, 9, allocation);
    match DepthResource::new(buffer, 7, D32, extent) {
        Ok(_) => panic!("a buffer was taken for a depth image"),
        Err(back) => {
            assert_eq!(back.handle(), 8);
            assert_eq!(back.memory(), 9);
        }
    }
}

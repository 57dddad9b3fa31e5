use ash::vk;
use vulkan_core::error::{RESULT_ERROR_OUT_OF_DATE, RESULT_SUBOPTIMAL, RESULT_SUCCESS};
use vulkan_core::flags::{
    ACCESS_COLOR_ATTACHMENT_WRITE, ACCESS_DEPTH_STENCIL_ATTACHMENT_WRITE, DEBUG_SEVERITY_ERROR,
    DEBUG_SEVERITY_INFO, DEBUG_SEVERITY_VERBOSE, DEBUG_SEVERITY_WARNING, DEBUG_TYPE_GENERAL,
    DEBUG_TYPE_PERFORMANCE, DEBUG_TYPE_VALIDATION, FORMAT_FEATURE_DEPTH_STENCIL_ATTACHMENT,
    IMAGE_ASPECT_COLOR, IMAGE_ASPECT_DEPTH, IMAGE_USAGE_DEPTH_STENCIL_ATTACHMENT,
    MEMORY_PROPERTY_DEVICE_LOCAL, PIPELINE_STAGE_COLOR_ATTACHMENT_OUTPUT,
    PIPELINE_STAGE_EARLY_FRAGMENT_TESTS, SAMPLE_COUNT_1,
};
use vulkan_core::memory::MAX_MEMORY_TYPES;
use vulkan_core::swapchain::UNDEFINED_EXTENT;
use vulkan_core::types::{
    FORMAT_D24_UNORM_S8_UINT, FORMAT_D32_SFLOAT, FORMAT_D32_SFLOAT_S8_UINT, HEIGHT, WIDTH,
};

#[test]
fn memory_and_image_bits_are_those_of_vulkan() {
    assert_eq!(MEMORY_PROPERTY_DEVICE_LOCAL, vk::MemoryPropertyFlags::DEVICE_LOCAL.as_raw());
    assert_eq!(
        FORMAT_FEATURE_DEPTH_STENCIL_ATTACHMENT,
        vk::FormatFeatureFlags::DEPTH_STENCIL_ATTACHMENT.as_raw()
    );
    assert_eq!(
        IMAGE_USAGE_DEPTH_STENCIL_ATTACHMENT,
        vk::ImageUsageFlags::DEPTH_STENCIL_ATTACHMENT.as_raw()
    );
    assert_eq!(IMAGE_ASPECT_COLOR, vk::ImageAspectFlags::COLOR.as_raw());
    assert_eq!(IMAGE_ASPECT_DEPTH, vk::ImageAspectFlags::DEPTH.as_raw());
    assert_eq!(SAMPLE_COUNT_1, vk::SampleCountFlags::TYPE_1.as_raw());
}

#[test]
fn stage_and_access_bits_are_those_of_vulkan() {
    assert_eq!(
        PIPELINE_STAGE_EARLY_FRAGMENT_TESTS,
        vk::PipelineStageFlags::EARLY_FRAGMENT_TESTS.as_raw()
    );
    assert_eq!(
        PIPELINE_STAGE_COLOR_ATTACHMENT_OUTPUT,
        vk::PipelineStageFlags::COLOR_ATTACHMENT_OUTPUT.as_raw()
    );
    assert_eq!(ACCESS_COLOR_ATTACHMENT_WRITE, vk::AccessFlags::COLOR_ATTACHMENT_WRITE.as_raw());
    assert_eq!(
        ACCESS_DEPTH_STENCIL_ATTACHMENT_WRITE,
        vk::AccessFlags::DEPTH_STENCIL_ATTACHMENT_WRITE.as_raw()
    );
}

#[test]
fn diagnostic_bits_are_those_of_vulkan() {
    assert_eq!(DEBUG_SEVERITY_VERBOSE, vk::DebugUtilsMessageSeverityFlagsEXT::VERBOSE.as_raw());
    assert_eq!(DEBUG_SEVERITY_INFO, vk::DebugUtilsMessageSeverityFlagsEXT::INFO.as_raw());
    assert_eq!(DEBUG_SEVERITY_WARNING, vk::DebugUtilsMessageSeverityFlagsEXT::WARNING.as_raw());
    assert_eq!(DEBUG_SEVERITY_ERROR, vk::DebugUtilsMessageSeverityFlagsEXT::ERROR.as_raw());
    assert_eq!(DEBUG_TYPE_GENERAL, vk::DebugUtilsMessageTypeFlagsEXT::GENERAL.as_raw());
    assert_eq!(DEBUG_TYPE_VALIDATION, vk::DebugUtilsMessageTypeFlagsEXT::VALIDATION.as_raw());
    assert_eq!(DEBUG_TYPE_PERFORMANCE, vk::DebugUtilsMessageTypeFlagsEXT::PERFORMANCE.as_raw());
}

#[test]
fn format_numbers_are_those_of_vulkan() {
    assert_eq!(FORMAT_D32_SFLOAT, vk::Format::D32_SFLOAT.as_raw());
    assert_eq!(FORMAT_D32_SFLOAT_S8_UINT, vk::Format::D32_SFLOAT_S8_UINT.as_raw());
    assert_eq!(FORMAT_D24_UNORM_S8_UINT, vk::Format::D24_UNORM_S8_UINT.as_raw());
}

#[test]
fn result_codes_are_those_of_vulkan() {
    assert_eq!(RESULT_SUCCESS, vk::Result::SUCCESS.as_raw());
    assert_eq!(RESULT_SUBOPTIMAL, vk::Result::SUBOPTIMAL_KHR.as_raw());
    assert_eq!(RESULT_ERROR_OUT_OF_DATE, vk::Result::ERROR_OUT_OF_DATE_KHR.as_raw());
}

#[test]
fn limits_are_those_of_vulkan() {
    assert_eq!(MAX_MEMORY_TYPES as usize, vk::MAX_MEMORY_TYPES);
    assert_eq!(UNDEFINED_EXTENT, u32::MAX);
}

#[test]
fn window_starts_at_800_by_600() {
    assert_eq!(WIDTH, 800);
    assert_eq!(HEIGHT, 600);
}

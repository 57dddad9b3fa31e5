use ash::vk;
use vulkan_core::render_pass::{
    render_pass_description, AttachmentDescription, AttachmentReference, ImageLayout, LoadOp,
    PipelineBindPoint, StoreOp, SubpassDependency, SubpassDescription, SubpassRef,
    COLOR_ATTACHMENT_INDEX, DEPTH_ATTACHMENT_INDEX,
};
use vulkan_core::types::Format;

const B8G8R8A8_SRGB: Format = Format { raw: 50 };
const D32_SFLOAT: Format = Format { raw: 126 };

#[test]
fn color_attachment_is_cleared_kept_and_made_presentable() {
    let pass = render_pass_description(B8G8R8A8_SRGB, D32_SFLOAT);
    assert_eq!(
        pass.color,
        AttachmentDescription {
            format: B8G8R8A8_SRGB,
            samples: 1,
            load_op: LoadOp::Clear,
            store_op: StoreOp::Store,
            stencil_load_op: LoadOp::DontCare,
            stencil_store_op: StoreOp::DontCare,
            initial_layout: ImageLayout::Undefined,
            final_layout: ImageLayout::PresentSrc,
        }
    );
}

#[test]
fn depth_attachment_is_cleared_and_discarded() {
    let pass = render_pass_description(B8G8R8A8_SRGB, D32_SFLOAT);
    assert_eq!(
        pass.depth,
        AttachmentDescription {
            format: D32_SFLOAT,
            samples: 1,
            load_op: LoadOp::Clear,
            store_op: StoreOp::DontCare,
            stencil_load_op: LoadOp::DontCare,
            stencil_store_op: StoreOp::DontCare,
            initial_layout: ImageLayout::Undefined,
            final_layout: ImageLayout::DepthStencilAttachmentOptimal,
        }
    );
}

#[test]
fn single_graphics_subpass_uses_both_attachments() {
    let pass = render_pass_description(B8G8R8A8_SRGB, D32_SFLOAT);
    assert_eq!(
        pass.subpass,
        SubpassDescription {
            bind_point: PipelineBindPoint::Graphics,
            color_attachment: AttachmentReference {
                attachment: 0,
                layout: ImageLayout::ColorAttachmentOptimal,
            },
            depth_stencil_attachment: AttachmentReference {
                attachment: 1,
                layout: ImageLayout::DepthStencilAttachmentOptimal,
            },
        }
    );
    assert_eq!(COLOR_ATTACHMENT_INDEX, 0);
    assert_eq!(DEPTH_ATTACHMENT_INDEX, 1);
    let attachments = pass.attachment_list();
    assert_eq!(attachments.len(), 2);
    assert_eq!(attachments[pass.subpass.color_attachment.attachment as usize], pass.color);
    assert_eq!(attachments[pass.subpass.depth_stencil_attachment.attachment as usize], pass.depth);
}

#[test]
fn dependency_orders_attachment_writes_after_earlier_work() {
    let pass = render_pass_description(B8G8R8A8_SRGB, D32_SFLOAT);
    let stages = (vk::PipelineStageFlags::COLOR_ATTACHMENT_OUTPUT
        | vk::PipelineStageFlags::EARLY_FRAGMENT_TESTS)
        .as_raw();
    let writes = (vk::AccessFlags::COLOR_ATTACHMENT_WRITE
        | vk::AccessFlags::DEPTH_STENCIL_ATTACHMENT_WRITE)
        .as_raw();
    assert_eq!(
        pass.dependency,
        SubpassDependency {
            src_subpass: SubpassRef::External,
            dst_subpass: SubpassRef::Index(0),
            src_stage_mask: stages,
            src_access_mask: vk::AccessFlags::empty().as_raw(),
            dst_stage_mask: stages,
            dst_access_mask: writes,
        }
    );
    assert_eq!(pass.dependency.src_stage_mask, 0x500);
    assert_eq!(pass.dependency.dst_access_mask, 0x500);
}

#[test]
fn formats_are_the_only_thing_that_varies() {
    let a = render_pass_description(Format { raw: 44 }, Format { raw: 129 });
    let b = render_pass_description(B8G8R8A8_SRGB, D32_SFLOAT);
    assert_eq!(a.color.format, Format { raw: 44 });
    assert_eq!(a.depth.format, Format { raw: 129 });
    assert_eq!(a.subpass, b.subpass);
    assert_eq!(a.dependency, b.dependency);
    assert_eq!(a.color.load_op, b.color.load_op);
    assert_eq!(a.depth.store_op, b.depth.store_op);
}

//! The render pass: one colour attachment, one depth attachment, a single
//! graphics subpass that draws into both, and the dependency that orders a
//! frame's writes after those of the frame before it.
use vstd::prelude::*;
use crate::flags::{
    ACCESS_COLOR_ATTACHMENT_WRITE, ACCESS_DEPTH_STENCIL_ATTACHMENT_WRITE,
    PIPELINE_STAGE_COLOR_ATTACHMENT_OUTPUT, PIPELINE_STAGE_EARLY_FRAGMENT_TESTS, SAMPLE_COUNT_1,
};
use crate::types::Format;

verus! {

/// What happens to an attachment's contents when the pass begins.
#[derive(Clone, Copy, Debug, PartialEq, Eq, Structural)]
pub enum LoadOp {
    Load,
    Clear,
    DontCare,
}

/// What happens to an attachment's contents when the pass ends.
#[derive(Clone, Copy, Debug, PartialEq, Eq, Structural)]
pub enum StoreOp {
    Store,
    DontCare,
}

/// The layouts an attachment of this engine passes through.
#[derive(Clone, Copy, Debug, PartialEq, Eq, Structural)]
pub enum ImageLayout {
    Undefined,
    ColorAttachmentOptimal,
    DepthStencilAttachmentOptimal,
    PresentSrc,
}

/// The kind of pipeline a subpass runs.
#[derive(Clone, Copy, Debug, PartialEq, Eq, Structural)]
pub enum PipelineBindPoint {
    Graphics,
    Compute,
}

/// One end of a dependency: a subpass of the pass, or all that was submitted
/// before the pass (as source) or after it (as destination).
#[derive(Clone, Copy, Debug, PartialEq, Eq, Structural)]
pub enum SubpassRef {
    External,
    Index(u32),
}

#[derive(Clone, Copy, Debug, PartialEq, Eq, Structural)]
pub struct AttachmentDescription {
    pub format: Format,
    pub samples: u32,
    pub load_op: LoadOp,
    pub store_op: StoreOp,
    pub stencil_load_op: LoadOp,
    pub stencil_store_op: StoreOp,
    pub initial_layout: ImageLayout,
    pub final_layout: ImageLayout,
}

/// A subpass's use of one attachment of the pass.
#[derive(Clone, Copy, Debug, PartialEq, Eq, Structural)]
pub struct AttachmentReference {
    /// Position of the attachment in the pass.
    pub attachment: u32,
    /// Layout the attachment has while the subpass runs.
    pub layout: ImageLayout,
}

#[derive(Clone, Copy, Debug, PartialEq, Eq, Structural)]
pub struct SubpassDescription {
    pub bind_point: PipelineBindPoint,
    pub color_attachment: AttachmentReference,
    pub depth_stencil_attachment: AttachmentReference,
}

#[derive(Clone, Copy, Debug, PartialEq, Eq, Structural)]
pub struct SubpassDependency {
    pub src_subpass: SubpassRef,
    pub dst_subpass: SubpassRef,
    pub src_stage_mask: u32,
    pub src_access_mask: u32,
    pub dst_stage_mask: u32,
    pub dst_access_mask: u32,
}

/// The whole pass. Its attachments are numbered in the order of the fields:
/// colour is attachment 0, depth is attachment 1.
#[derive(Clone, Copy, Debug, PartialEq, Eq, Structural)]
pub struct RenderPassDescription {
    pub color: AttachmentDescription,
    pub depth: AttachmentDescription,
    pub subpass: SubpassDescription,
    pub dependency: SubpassDependency,
}

/// Position of the colour attachment in the pass.
pub const COLOR_ATTACHMENT_INDEX: u32 = 0;

/// Position of the depth attachment in the pass.
pub const DEPTH_ATTACHMENT_INDEX: u32 = 1;

/// The stages in which the attachments are written: the early fragment tests
/// write depth, the colour output writes colour.
pub open spec fn attachment_stages() -> u32 {
    PIPELINE_STAGE_COLOR_ATTACHMENT_OUTPUT | PIPELINE_STAGE_EARLY_FRAGMENT_TESTS
}

/// The colour attachment: cleared at the start, kept at the end, and left in
/// the layout that presentation wants.
pub open spec fn color_attachment(format: Format) -> AttachmentDescription {
    AttachmentDescription {
        format,
        samples: SAMPLE_COUNT_1,
        load_op: LoadOp::Clear,
        store_op: StoreOp::Store,
        stencil_load_op: LoadOp::DontCare,
        stencil_store_op: StoreOp::DontCare,
        initial_layout: ImageLayout::Undefined,
        final_layout: ImageLayout::PresentSrc,
    }
}

/// The depth attachment: cleared at the start and thrown away at the end,
/// since nothing reads depth after the pass.
pub open spec fn depth_attachment(format: Format) -> AttachmentDescription {
    AttachmentDescription {
        format,
        samples: SAMPLE_COUNT_1,
        load_op: LoadOp::Clear,
        store_op: StoreOp::DontCare,
        stencil_load_op: LoadOp::DontCare,
        stencil_store_op: StoreOp::DontCare,
        initial_layout: ImageLayout::Undefined,
        final_layout: ImageLayout::DepthStencilAttachmentOptimal,
    }
}

/// The one subpass: graphics, drawing into both attachments.
pub open spec fn graphics_subpass() -> SubpassDescription {
    SubpassDescription {
        bind_point: PipelineBindPoint::Graphics,
        color_attachment: AttachmentReference {
            attachment: COLOR_ATTACHMENT_INDEX,
            layout: ImageLayout::ColorAttachmentOptimal,
        },
        depth_stencil_attachment: AttachmentReference {
            attachment: DEPTH_ATTACHMENT_INDEX,
            layout: ImageLayout::DepthStencilAttachmentOptimal,
        },
    }
}

/// The one dependency: the subpass's attachment writes wait for the same
/// stages of everything submitted earlier. The attachments start in an
/// undefined layout, so without it the transition could race with the
/// previous frame's writes.
pub open spec fn producer_dependency() -> SubpassDependency {
    SubpassDependency {
        src_subpass: SubpassRef::External,
        dst_subpass: SubpassRef::Index(0),
        src_stage_mask: attachment_stages(),
        src_access_mask: 0,
        dst_stage_mask: attachment_stages(),
        dst_access_mask: ACCESS_COLOR_ATTACHMENT_WRITE | ACCESS_DEPTH_STENCIL_ATTACHMENT_WRITE,
    }
}

impl RenderPassDescription {
    /// The attachments in the order the pass numbers them.
    pub open spec fn attachments(self) -> Seq<AttachmentDescription> {
        seq![self.color, self.depth]
    }

    /// Every reference of the subpass names an attachment of the pass, colour
    /// and depth are distinct attachments, and the dependency ends at the
    /// pass's only subpass.
    pub open spec fn well_formed(self) -> bool {
        &&& self.subpass.color_attachment.attachment < self.attachments().len()
        &&& self.subpass.depth_stencil_attachment.attachment < self.attachments().len()
        &&& self.subpass.color_attachment.attachment
            != self.subpass.depth_stencil_attachment.attachment
        &&& self.attachments()[self.subpass.color_attachment.attachment as int] == self.color
        &&& self.attachments()[self.subpass.depth_stencil_attachment.attachment as int]
            == self.depth
        &&& self.dependency.dst_subpass == SubpassRef::Index(0)
    }

    /// The attachments in the order the pass numbers them.
    pub fn attachment_list(&self) -> (list: Vec<AttachmentDescription>)
        ensures
            list@ == self.attachments(),
    {
        let mut list: Vec<AttachmentDescription> = Vec::new();
        list.push(self.color);
        list.push(self.depth);
        list
    }
}

/// The pass of this engine for a presentable image of `format` and a depth
/// image of `depth_format`.
pub open spec fn render_pass_spec(format: Format, depth_format: Format) -> RenderPassDescription {
    RenderPassDescription {
        color: color_attachment(format),
        depth: depth_attachment(depth_format),
        subpass: graphics_subpass(),
        dependency: producer_dependency(),
    }
}

/// Describes the render pass for a presentable image of `format` and a depth
/// image of `depth_format`.
pub fn render_pass_description(format: Format, depth_format: Format) -> (pass:
    RenderPassDescription)
    ensures
        pass == render_pass_spec(format, depth_format),
        pass.well_formed(),
{
    let color = AttachmentDescription {
        format,
        samples: SAMPLE_COUNT_1,
        load_op: LoadOp::Clear,
        store_op: StoreOp::Store,
        stencil_load_op: LoadOp::DontCare,
        stencil_store_op: StoreOp::DontCare,
        initial_layout: ImageLayout::Undefined,
        final_layout: ImageLayout::PresentSrc,
    };
    let color_ref = AttachmentReference {
        attachment: COLOR_ATTACHMENT_INDEX,
        layout: ImageLayout::ColorAttachmentOptimal,
    };
    let depth = AttachmentDescription {
        format: depth_format,
        samples: SAMPLE_COUNT_1,
        load_op: LoadOp::Clear,
        store_op: StoreOp::DontCare,
        stencil_load_op: LoadOp::DontCare,
        stencil_store_op: StoreOp::DontCare,
        initial_layout: ImageLayout::Undefined,
        final_layout: ImageLayout::DepthStencilAttachmentOptimal,
    };
    let depth_ref = AttachmentReference {
        attachment: DEPTH_ATTACHMENT_INDEX,
        layout: ImageLayout::DepthStencilAttachmentOptimal,
    };
    let subpass = SubpassDescription {
        bind_point: PipelineBindPoint::Graphics,
        color_attachment: color_ref,
        depth_stencil_attachment: depth_ref,
    };
    let stages: u32 = PIPELINE_STAGE_COLOR_ATTACHMENT_OUTPUT | PIPELINE_STAGE_EARLY_FRAGMENT_TESTS;
    let dependency = SubpassDependency {
        src_subpass: SubpassRef::External,
        dst_subpass: SubpassRef::Index(0),
        src_stage_mask: stages,
        src_access_mask: 0,
        dst_stage_mask: stages,
        dst_access_mask: ACCESS_COLOR_ATTACHMENT_WRITE | ACCESS_DEPTH_STENCIL_ATTACHMENT_WRITE,
    };
    RenderPassDescription { color, depth, subpass, dependency }
}

/// Whatever the two formats, the pass clears both attachments when it begins,
/// keeps colour and drops depth when it ends, hands colour over ready to be
/// presented, and is well formed.
pub proof fn lemma_render_pass_shape(format: Format, depth_format: Format)
    ensures
        render_pass_spec(format, depth_format).well_formed(),
        render_pass_spec(format, depth_format).color.load_op == LoadOp::Clear,
        render_pass_spec(format, depth_format).color.store_op == StoreOp::Store,
        render_pass_spec(format, depth_format).color.final_layout == ImageLayout::PresentSrc,
        render_pass_spec(format, depth_format).depth.load_op == LoadOp::Clear,
        render_pass_spec(format, depth_format).depth.store_op == StoreOp::DontCare,
        render_pass_spec(format, depth_format).dependency.src_stage_mask == 0x500,
        render_pass_spec(format, depth_format).dependency.dst_stage_mask == 0x500,
        render_pass_spec(format, depth_format).dependency.dst_access_mask == 0x500,
{
    assert(0x400u32 | 0x100u32 == 0x500u32) by (bit_vector);
    assert(0x100u32 | 0x400u32 == 0x500u32) by (bit_vector);
}

} // verus!

//! The swapchain: how its parameters are negotiated with the surface, what
//! one generation of it owns, and how a generation is replaced by the next.
use vstd::prelude::*;
use crate::context::{HandleKind, OwnedHandle};
use crate::flags::IMAGE_ASPECT_COLOR;
use crate::image::{image_view_info, image_view_spec, ImageViewCreateInfo};
use crate::depth::DepthResource;
use crate::types::{Extent2D, Format};

verus! {

/// Value of both sides of an extent by which a surface says that it has no
/// size of its own and takes that of the swapchain.
pub const UNDEFINED_EXTENT: u32 = 0xFFFF_FFFF;

/// What a surface can do, as far as the engine asks.
#[derive(Clone, Copy, Debug, PartialEq, Eq, Structural)]
pub struct SurfaceCapabilities {
    /// Fewest images a swapchain on the surface can have.
    pub min_image_count: u32,
    /// Most images it can have; 0 where there is no limit.
    pub max_image_count: u32,
    /// Size of the surface, or `UNDEFINED_EXTENT` on both sides.
    pub current_extent: Extent2D,
}

/// How finished images are handed to the display.
#[derive(Clone, Copy, Debug, PartialEq, Eq, Structural)]
pub enum PresentMode {
    Immediate,
    /// A queue of one: a newer image replaces the one that waits.
    Mailbox,
    /// A queue in order of arrival; every surface has it.
    Fifo,
    FifoRelaxed,
    /// Any other mode, by its Vulkan number.
    Other(i32),
}

/// A pixel format together with the colour space it is shown in.
#[derive(Clone, Copy, Debug, PartialEq, Eq, Structural)]
pub struct SurfaceFormat {
    pub format: Format,
    /// The colour space, by its Vulkan number.
    pub color_space: i32,
}

/// All that the surface reports before a swapchain is created on it.
#[derive(Debug)]
pub struct SwapchainSupportDetails {
    pub capabilities: SurfaceCapabilities,
    pub formats: Vec<SurfaceFormat>,
    pub present_modes: Vec<PresentMode>,
}

/// The negotiated parameters of one generation of the swapchain.
#[derive(Clone, Copy, Debug, PartialEq, Eq, Structural)]
pub struct SwapchainConfig {
    /// Number of images asked for.
    pub image_count: u32,
    pub surface_format: SurfaceFormat,
    pub present_mode: PresentMode,
    pub extent: Extent2D,
}

/// The surface reports no format to create a swapchain with.
#[derive(Clone, Copy, Debug, PartialEq, Eq, Structural)]
pub struct NoSurfaceFormatError {}

impl SurfaceCapabilities {
    /// The surface has no size of its own.
    pub open spec fn extent_undefined(self) -> bool {
        self.current_extent.width == UNDEFINED_EXTENT && self.current_extent.height
            == UNDEFINED_EXTENT
    }
}

/// One image more than the surface's minimum, so that the engine need not
/// wait for the driver before it can draw again; but no more than the
/// surface's maximum where it has one, nor than a `u32` holds.
pub open spec fn image_count_spec(capabilities: SurfaceCapabilities) -> u32 {
    let wanted: int = if capabilities.min_image_count < u32::MAX {
        capabilities.min_image_count + 1
    } else {
        u32::MAX as int
    };
    if capabilities.max_image_count > 0 && wanted > capabilities.max_image_count {
        capabilities.max_image_count
    } else {
        wanted as u32
    }
}

/// Mailbox where the surface has it, else the mode that every surface has.
pub open spec fn present_mode_spec(modes: Seq<PresentMode>) -> PresentMode {
    if modes.contains(PresentMode::Mailbox) {
        PresentMode::Mailbox
    } else {
        PresentMode::Fifo
    }
}

/// The surface's own size, or that of the window where the surface has none.
pub open spec fn extent_spec(capabilities: SurfaceCapabilities, window: Extent2D) -> Extent2D {
    if capabilities.extent_undefined() {
        window
    } else {
        capabilities.current_extent
    }
}

/// The parameters negotiated for a window of size `window` on a surface that
/// reports `capabilities`, `formats` and `modes`: the surface's first format
/// is taken. Nothing can be negotiated where the surface reports no format.
pub open spec fn plan_spec(
    capabilities: SurfaceCapabilities,
    formats: Seq<SurfaceFormat>,
    modes: Seq<PresentMode>,
    window: Extent2D,
) -> Option<SwapchainConfig> {
    if formats.len() == 0 {
        None
    } else {
        Some(
            SwapchainConfig {
                image_count: image_count_spec(capabilities),
                surface_format: formats[0],
                present_mode: present_mode_spec(modes),
                extent: extent_spec(capabilities, window),
            },
        )
    }
}

/// Chooses how many images to ask for.
pub fn choose_image_count(capabilities: &SurfaceCapabilities) -> (count: u32)
    ensures
        count == image_count_spec(*capabilities),
{
    let wanted: u32 = if capabilities.min_image_count < u32::MAX {
        capabilities.min_image_count + 1
    } else {
        u32::MAX
    };
    if capabilities.max_image_count > 0 && wanted > capabilities.max_image_count {
        capabilities.max_image_count
    } else {
        wanted
    }
}

/// Chooses the presentation mode.
pub fn choose_present_mode(modes: &Vec<PresentMode>) -> (mode: PresentMode)
    ensures
        mode == present_mode_spec(modes@),
{
    let mut i: usize = 0;
    while i < modes.len()
        invariant
            i <= modes.len(),
            forall|j: int| 0 <= j < i ==> modes@[j] != PresentMode::Mailbox,
        decreases modes.len() - i,
    {
        if modes[i] == PresentMode::Mailbox {
            assert(modes@.contains(PresentMode::Mailbox));
            return PresentMode::Mailbox;
        }
        i = i + 1;
    }
    assert(!modes@.contains(PresentMode::Mailbox));
    PresentMode::Fifo
}

/// Chooses the size of the images.
pub fn choose_extent(capabilities: &SurfaceCapabilities, window: Extent2D) -> (extent: Extent2D)
    ensures
        extent == extent_spec(*capabilities, window),
{
    if capabilities.current_extent.width == UNDEFINED_EXTENT && capabilities.current_extent.height
        == UNDEFINED_EXTENT {
        window
    } else {
        capabilities.current_extent
    }
}

/// Negotiates the parameters of a swapchain for a window of size `window`.
pub fn plan_swapchain(support: &SwapchainSupportDetails, window: Extent2D) -> (r: Result<
    SwapchainConfig,
    NoSurfaceFormatError,
>)
    ensures
        r == match plan_spec(
            support.capabilities,
            support.formats@,
            support.present_modes@,
            window,
        ) {
            Some(config) => Ok::<SwapchainConfig, NoSurfaceFormatError>(config),
            None => Err(NoSurfaceFormatError {  }),
        },
{
    if support.formats.len() == 0 {
        return Err(NoSurfaceFormatError {  });
    }
    Ok(
        SwapchainConfig {
            image_count: choose_image_count(&support.capabilities),
            surface_format: support.formats[0],
            present_mode: choose_present_mode(&support.present_modes),
            extent: choose_extent(&support.capabilities, window),
        },
    )
}

/// The number of images asked for is above the surface's minimum wherever
/// the surface and a `u32` allow it, never below the minimum on a surface
/// whose limits are consistent, and never above the surface's maximum.
pub proof fn lemma_image_count_in_bounds(capabilities: SurfaceCapabilities)
    ensures
        capabilities.max_image_count > 0 ==> image_count_spec(capabilities)
            <= capabilities.max_image_count,
        capabilities.max_image_count == 0 || capabilities.min_image_count
            <= capabilities.max_image_count ==> image_count_spec(capabilities)
            >= capabilities.min_image_count,
        capabilities.min_image_count < u32::MAX && (capabilities.max_image_count == 0
            || capabilities.min_image_count < capabilities.max_image_count) ==> image_count_spec(
            capabilities,
        ) == capabilities.min_image_count + 1,
{
}

/// Negotiating again for a window of unchanged size on a surface of
/// unchanged capabilities gives the image count and the extent of before,
/// whatever has become of the lists of formats and modes.
pub proof fn lemma_recreation_keeps_count_and_extent(
    capabilities: SurfaceCapabilities,
    window: Extent2D,
    formats_before: Seq<SurfaceFormat>,
    modes_before: Seq<PresentMode>,
    formats_after: Seq<SurfaceFormat>,
    modes_after: Seq<PresentMode>,
)
    requires
        plan_spec(capabilities, formats_before, modes_before, window) is Some,
        plan_spec(capabilities, formats_after, modes_after, window) is Some,
    ensures
        plan_spec(capabilities, formats_after, modes_after, window)->0.image_count == plan_spec(
            capabilities,
            formats_before,
            modes_before,
            window,
        )->0.image_count,
        plan_spec(capabilities, formats_after, modes_after, window)->0.extent == plan_spec(
            capabilities,
            formats_before,
            modes_before,
            window,
        )->0.extent,
{
}

/// What is asked of the driver when the framebuffer of one image is
/// created. Its attachments are the image's view and the depth view, in the
/// order in which the render pass numbers them.
#[derive(Clone, Copy, Debug, PartialEq, Eq, Structural)]
pub struct FramebufferCreateInfo {
    /// Handle of the render pass the framebuffer is used with.
    pub render_pass: u64,
    pub color_view: u64,
    pub depth_view: u64,
    pub width: u32,
    pub height: u32,
    pub layers: u32,
}

/// The framebuffer of the image seen through `color_view`.
pub open spec fn framebuffer_spec(
    render_pass: u64,
    color_view: u64,
    depth_view: u64,
    extent: Extent2D,
) -> FramebufferCreateInfo {
    FramebufferCreateInfo {
        render_pass,
        color_view,
        depth_view,
        width: extent.width,
        height: extent.height,
        layers: 1,
    }
}

/// Describes one colour view for each image of the swapchain.
pub fn swapchain_view_infos(images: &Vec<u64>, format: Format) -> (infos: Vec<ImageViewCreateInfo>)
    ensures
        infos@.len() == images@.len(),
        forall|i: int|
            0 <= i < images@.len() ==> #[trigger] infos@[i] == image_view_spec(
                images@[i],
                format,
                IMAGE_ASPECT_COLOR,
            ),
{
    let mut infos: Vec<ImageViewCreateInfo> = Vec::new();
    let mut i: usize = 0;
    while i < images.len()
        invariant
            i <= images.len(),
            infos@.len() == i,
            forall|j: int|
                0 <= j < i ==> #[trigger] infos@[j] == image_view_spec(
                    images@[j],
                    format,
                    IMAGE_ASPECT_COLOR,
                ),
        decreases images.len() - i,
    {
        infos.push(image_view_info(images[i], format, IMAGE_ASPECT_COLOR));
        i = i + 1;
    }
    infos
}

/// Describes one framebuffer for each view of the swapchain, all with the
/// same render pass, depth view and size.
pub fn framebuffer_infos(
    render_pass: u64,
    views: &Vec<u64>,
    depth_view: u64,
    extent: Extent2D,
) -> (infos: Vec<FramebufferCreateInfo>)
    ensures
        infos@.len() == views@.len(),
        forall|i: int|
            0 <= i < views@.len() ==> #[trigger] infos@[i] == framebuffer_spec(
                render_pass,
                views@[i],
                depth_view,
                extent,
            ),
{
    let mut infos: Vec<FramebufferCreateInfo> = Vec::new();
    let mut i: usize = 0;
    while i < views.len()
        invariant
            i <= views.len(),
            infos@.len() == i,
            forall|j: int|
                0 <= j < i ==> #[trigger] infos@[j] == framebuffer_spec(
                    render_pass,
                    views@[j],
                    depth_view,
                    extent,
                ),
        decreases views.len() - i,
    {
        infos.push(
            FramebufferCreateInfo {
                render_pass,
                color_view: views[i],
                depth_view,
                width: extent.width,
                height: extent.height,
                layers: 1,
            },
        );
        i = i + 1;
    }
    infos
}

/// One presentable image with the view and the framebuffer made for it.
#[derive(Clone, Copy, Debug, PartialEq, Eq, Structural)]
pub struct SwapchainImage {
    pub image: u64,
    pub view: u64,
    pub framebuffer: u64,
}

/// One generation of the swapchain: its images, each with its view and
/// framebuffer, and the depth image they share. All of it has one format and
/// one extent, and all of it is created and destroyed together.
#[derive(Debug)]
pub struct Swapchain {
    handle: u64,
    config: SwapchainConfig,
    images: Vec<SwapchainImage>,
    depth: DepthResource,
}

/// The parts of a generation that could not be put together.
#[derive(Debug)]
pub struct RejectedGeneration {
    pub images: Vec<SwapchainImage>,
    pub depth: DepthResource,
}

impl Swapchain {
    pub closed spec fn spec_handle(&self) -> u64 {
        self.handle
    }

    pub closed spec fn spec_config(&self) -> SwapchainConfig {
        self.config
    }

    /// The images in the order the driver numbers them.
    pub closed spec fn spec_images(&self) -> Seq<SwapchainImage> {
        self.images@
    }

    pub closed spec fn spec_depth(&self) -> DepthResource {
        self.depth
    }

    /// The depth image is as large as the presentable images.
    pub open spec fn well_formed(&self) -> bool {
        self.spec_depth().spec_extent() == self.spec_config().extent
    }

    /// Every handle of the generation, in the order of creation: the
    /// swapchain, the view of each image, the depth image with its memory and
    /// its view, the framebuffer of each image.
    pub open spec fn creation_order(&self) -> Seq<OwnedHandle> {
        seq![OwnedHandle { kind: HandleKind::Swapchain, raw: self.spec_handle() }] + Seq::new(
            self.spec_images().len(),
            |i: int| OwnedHandle { kind: HandleKind::ImageView, raw: self.spec_images()[i].view },
        ) + seq![
            OwnedHandle { kind: HandleKind::Image, raw: self.spec_depth().spec_image().spec_handle() },
            OwnedHandle {
                kind: HandleKind::Memory,
                raw: self.spec_depth().spec_image().spec_memory(),
            },
            OwnedHandle { kind: HandleKind::ImageView, raw: self.spec_depth().spec_view() },
        ] + Seq::new(
            self.spec_images().len(),
            |i: int|
                OwnedHandle { kind: HandleKind::Framebuffer, raw: self.spec_images()[i].framebuffer },
        )
    }

    /// Puts a generation together. The depth image must be as large as the
    /// presentable images; one that is not is handed back with the rest.
    pub fn new(
        handle: u64,
        config: SwapchainConfig,
        images: Vec<SwapchainImage>,
        depth: DepthResource,
    ) -> (r: Result<Self, RejectedGeneration>)
        ensures
            r is Ok <==> depth.spec_extent() == config.extent,
            r matches Ok(swapchain) ==> {
                &&& swapchain.well_formed()
                &&& swapchain.spec_handle() == handle
                &&& swapchain.spec_config() == config
                &&& swapchain.spec_images() == images@
                &&& swapchain.spec_depth() == depth
            },
            r matches Err(parts) ==> parts.images@ == images@ && parts.depth == depth,
    {
        let depth_extent = depth.extent();
        if depth_extent.width == config.extent.width && depth_extent.height == config.extent.height {
            Ok(Swapchain { handle, config, images, depth })
        } else {
            Err(RejectedGeneration { images, depth })
        }
    }

    #[verifier::when_used_as_spec(spec_handle)]
    pub fn handle(&self) -> (h: u64)
        ensures
            h == self.spec_handle(),
    {
        self.handle
    }

    /// The negotiated parameters.
    #[verifier::when_used_as_spec(spec_config)]
    pub fn config(&self) -> (c: SwapchainConfig)
        ensures
            c == self.spec_config(),
    {
        self.config
    }

    /// Number of images the driver made.
    pub fn image_count(&self) -> (n: usize)
        ensures
            n == self.spec_images().len(),
    {
        self.images.len()
    }

    /// The image with the given number, if there is one.
    pub fn image(&self, index: u32) -> (r: Option<SwapchainImage>)
        ensures
            r == if index < self.spec_images().len() {
                Some(self.spec_images()[index as int])
            } else {
                None
            },
    {
        if (index as usize) < self.images.len() {
            Some(self.images[index as usize])
        } else {
            None
        }
    }

    /// The depth image.
    pub fn depth(&self) -> (d: &DepthResource)
        ensures
            *d == self.spec_depth(),
    {
        &self.depth
    }

    /// Gives the generation up and lists its handles in the order in which
    /// they are to be destroyed: the reverse of the order of creation.
    pub fn release_order(self) -> (handles: Vec<OwnedHandle>)
        ensures
            handles@ == self.creation_order().reverse(),
    {
        let mut created: Vec<OwnedHandle> = Vec::new();
        created.push(OwnedHandle { kind: HandleKind::Swapchain, raw: self.handle });
        let count: usize = self.images.len();
        let ghost head = created@;
        let mut i: usize = 0;
        while i < count
            invariant
                count == self.images.len(),
                i <= count,
                created@ == head + Seq::new(
                    i as nat,
                    |k: int|
                        OwnedHandle { kind: HandleKind::ImageView, raw: self.spec_images()[k].view },
                ),
            decreases count - i,
        {
            created.push(OwnedHandle { kind: HandleKind::ImageView, raw: self.images[i].view });
            i = i + 1;
        }
        created.push(OwnedHandle { kind: HandleKind::Image, raw: self.depth.image_handle() });
        created.push(OwnedHandle { kind: HandleKind::Memory, raw: self.depth.memory_handle() });
        created.push(OwnedHandle { kind: HandleKind::ImageView, raw: self.depth.view() });
        let ghost middle = created@;
        let mut j: usize = 0;
        while j < count
            invariant
                count == self.images.len(),
                j <= count,
                created@ == middle + Seq::new(
                    j as nat,
                    |k: int|
                        OwnedHandle {
                            kind: HandleKind::Framebuffer,
                            raw: self.spec_images()[k].framebuffer,
                        },
                ),
            decreases count - j,
        {
            created.push(
                OwnedHandle { kind: HandleKind::Framebuffer, raw: self.images[j].framebuffer },
            );
            j = j + 1;
        }
        assert(created@ =~= self.creation_order());
        reversed(&created)
    }
}

/// The handles of `handles`, last first.
pub fn reversed(handles: &Vec<OwnedHandle>) -> (r: Vec<OwnedHandle>)
    ensures
        r@ == handles@.reverse(),
{
    let mut r: Vec<OwnedHandle> = Vec::new();
    let mut remaining: usize = handles.len();
    while remaining > 0
        invariant
            remaining <= handles.len(),
            r@.len() == handles.len() - remaining,
            forall|k: int| 0 <= k < r@.len() ==> #[trigger] r@[k] == handles@[handles.len() - 1 - k],
        decreases remaining,
    {
        remaining = remaining - 1;
        r.push(handles[remaining]);
    }
    assert(r@ =~= handles@.reverse());
    r
}

/// Keeper of the swapchain across recreations. At any time it holds one
/// whole generation or none: a generation is taken out before it is
/// destroyed, and the next is put in only when all of it has been created.
#[derive(Debug)]
pub struct SwapchainManager {
    live: Option<Swapchain>,
    generation: u64,
}

impl SwapchainManager {
    /// The generation in use, if there is one.
    pub closed spec fn spec_live(&self) -> Option<Swapchain> {
        self.live
    }

    /// How many generations have been put in so far: the number of the one
    /// in use.
    pub closed spec fn spec_generation(&self) -> u64 {
        self.generation
    }

    /// The generation in use is well formed.
    pub open spec fn well_formed(&self) -> bool {
        self.spec_live() matches Some(swapchain) ==> swapchain.well_formed()
    }

    /// A manager before the first swapchain is created.
    pub fn new() -> (manager: Self)
        ensures
            manager.spec_live() is None,
            manager.spec_generation() == 0,
            manager.well_formed(),
    {
        SwapchainManager { live: None, generation: 0 }
    }

    /// Puts a new generation in use. It is handed back where another is
    /// still in use, or where the generations can no longer be counted.
    pub fn install(&mut self, swapchain: Swapchain) -> (r: Result<(), Swapchain>)
        requires
            old(self).well_formed(),
            swapchain.well_formed(),
        ensures
            final(self).well_formed(),
            r is Ok <==> old(self).spec_live() is None && old(self).spec_generation() < u64::MAX,
            r is Ok ==> {
                &&& final(self).spec_live() == Some(swapchain)
                &&& final(self).spec_generation() == old(self).spec_generation() + 1
            },
            r matches Err(back) ==> back == swapchain && *final(self) == *old(self),
    {
        if self.live.is_some() || self.generation == u64::MAX {
            return Err(swapchain);
        }
        self.live = Some(swapchain);
        self.generation = self.generation + 1;
        Ok(())
    }

    /// Takes the generation in use out, to be destroyed.
    pub fn retire(&mut self) -> (r: Option<Swapchain>)
        requires
            old(self).well_formed(),
        ensures
            r == old(self).spec_live(),
            r matches Some(swapchain) ==> swapchain.well_formed(),
            final(self).spec_live() is None,
            final(self).spec_generation() == old(self).spec_generation(),
            final(self).well_formed(),
    {
        self.live.take()
    }

    /// The generation in use, if there is one.
    pub fn current(&self) -> (r: Option<&Swapchain>)
        ensures
            r is Some <==> self.spec_live() is Some,
            r matches Some(swapchain) ==> Some(*swapchain) == self.spec_live(),
    {
        self.live.as_ref()
    }

    /// The number of the generation in use; 0 before the first.
    #[verifier::when_used_as_spec(spec_generation)]
    pub fn generation(&self) -> (g: u64)
        ensures
            g == self.spec_generation(),
    {
        self.generation
    }
}

} // verus!

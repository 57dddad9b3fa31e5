//! Depth: which format the depth image gets, and what is asked of the driver
//! to create it.
use vstd::prelude::*;
use crate::flags::{
    format_features_contain, mask_contains, FORMAT_FEATURE_DEPTH_STENCIL_ATTACHMENT,
    IMAGE_ASPECT_DEPTH, IMAGE_USAGE_DEPTH_STENCIL_ATTACHMENT, MEMORY_PROPERTY_DEVICE_LOCAL,
};
use crate::image::{image_create_info, image_create_spec, ImageCreateInfo};
use crate::memory::{MemoryResource, ResourceKind};
use crate::types::{
    Extent2D, Format, ImageTiling, FORMAT_D24_UNORM_S8_UINT, FORMAT_D32_SFLOAT,
    FORMAT_D32_SFLOAT_S8_UINT,
};

verus! {

/// One row of the device's capability table: what a format can be used for,
/// under each tiling, as feature masks.
#[derive(Clone, Copy, Debug, PartialEq, Eq, Structural)]
pub struct FormatProperties {
    pub format: Format,
    pub linear_tiling_features: u32,
    pub optimal_tiling_features: u32,
}

/// No candidate format has the features asked for. The device cannot run
/// the engine; no lesser format is tried in its place.
#[derive(Clone, Copy, Debug, PartialEq, Eq, Structural)]
pub struct UnsupportedFormatError {
    pub tiling: ImageTiling,
    /// The features that were asked for.
    pub features: u32,
}

impl FormatProperties {
    /// The features of this row's format under `tiling`.
    pub open spec fn features(self, tiling: ImageTiling) -> u32 {
        match tiling {
            ImageTiling::Linear => self.linear_tiling_features,
            ImageTiling::Optimal => self.optimal_tiling_features,
        }
    }
}

/// The table has a row that grants `format` all of `features` under `tiling`.
/// A format without a row has no features.
pub open spec fn supports(
    table: Seq<FormatProperties>,
    format: Format,
    tiling: ImageTiling,
    features: u32,
) -> bool {
    exists|i: int|
        0 <= i < table.len() && #[trigger] table[i].format == format && mask_contains(
            table[i].features(tiling),
            features,
        )
}

/// The first candidate that the table supports, if there is one.
pub open spec fn select_format(
    candidates: Seq<Format>,
    table: Seq<FormatProperties>,
    tiling: ImageTiling,
    features: u32,
) -> Option<Format>
    decreases candidates.len(),
{
    if candidates.len() == 0 {
        None
    } else if supports(table, candidates[0], tiling, features) {
        Some(candidates[0])
    } else {
        select_format(candidates.drop_first(), table, tiling, features)
    }
}

/// The depth formats in order of preference: 32-bit float, 32-bit float with
/// stencil, packed 24-bit with stencil.
pub open spec fn depth_candidates_spec() -> Seq<Format> {
    seq![
        Format { raw: FORMAT_D32_SFLOAT },
        Format { raw: FORMAT_D32_SFLOAT_S8_UINT },
        Format { raw: FORMAT_D24_UNORM_S8_UINT },
    ]
}

/// The depth format chosen on a device with the given capability table.
pub open spec fn select_depth_format(table: Seq<FormatProperties>) -> Option<Format> {
    select_format(
        depth_candidates_spec(),
        table,
        ImageTiling::Optimal,
        FORMAT_FEATURE_DEPTH_STENCIL_ATTACHMENT,
    )
}

/// Whether the table grants `format` all of `features` under `tiling`.
pub fn format_supported(
    table: &Vec<FormatProperties>,
    format: Format,
    tiling: ImageTiling,
    features: u32,
) -> (r: bool)
    ensures
        r == supports(table@, format, tiling, features),
{
    let mut i: usize = 0;
    while i < table.len()
        invariant
            i <= table.len(),
            forall|j: int|
                0 <= j < i ==> !(#[trigger] table@[j].format == format && mask_contains(
                    table@[j].features(tiling),
                    features,
                )),
        decreases table.len() - i,
    {
        let row = table[i];
        let offered: u32 = match tiling {
            ImageTiling::Linear => row.linear_tiling_features,
            ImageTiling::Optimal => row.optimal_tiling_features,
        };
        if row.format == format && format_features_contain(offered, features) {
            return true;
        }
        i = i + 1;
    }
    false
}

/// Picks the first of `candidates` to which the device grants all of
/// `features` under `tiling`.
pub fn find_supported_format(
    candidates: &Vec<Format>,
    table: &Vec<FormatProperties>,
    tiling: ImageTiling,
    features: u32,
) -> (r: Result<Format, UnsupportedFormatError>)
    ensures
        r == match select_format(candidates@, table@, tiling, features) {
            Some(format) => Ok::<Format, UnsupportedFormatError>(format),
            None => Err(UnsupportedFormatError { tiling, features }),
        },
{
    let mut i: usize = 0;
    assert(candidates@.skip(0) =~= candidates@);
    while i < candidates.len()
        invariant
            i <= candidates.len(),
            select_format(candidates@, table@, tiling, features) == select_format(
                candidates@.skip(i as int),
                table@,
                tiling,
                features,
            ),
        decreases candidates.len() - i,
    {
        let format = candidates[i];
        proof {
            let rest = candidates@.skip(i as int);
            assert(rest[0] == candidates@[i as int]);
            assert(rest.drop_first() =~= candidates@.skip(i as int + 1));
        }
        if format_supported(table, format, tiling, features) {
            return Ok(format);
        }
        i = i + 1;
    }
    assert(candidates@.skip(i as int).len() == 0);
    Err(UnsupportedFormatError { tiling, features })
}

/// The depth formats in order of preference.
pub fn depth_candidates() -> (candidates: Vec<Format>)
    ensures
        candidates@ == depth_candidates_spec(),
{
    let mut candidates: Vec<Format> = Vec::new();
    candidates.push(Format { raw: FORMAT_D32_SFLOAT });
    candidates.push(Format { raw: FORMAT_D32_SFLOAT_S8_UINT });
    candidates.push(Format { raw: FORMAT_D24_UNORM_S8_UINT });
    assert(candidates@ =~= depth_candidates_spec());
    candidates
}

/// Picks the depth format: the most preferred one that the device can use,
/// optimally tiled, as a depth-stencil attachment.
pub fn find_depth_format(table: &Vec<FormatProperties>) -> (r: Result<
    Format,
    UnsupportedFormatError,
>)
    ensures
        r == match select_depth_format(table@) {
            Some(format) => Ok::<Format, UnsupportedFormatError>(format),
            None => Err(
                UnsupportedFormatError {
                    tiling: ImageTiling::Optimal,
                    features: FORMAT_FEATURE_DEPTH_STENCIL_ATTACHMENT,
                },
            ),
        },
{
    let candidates = depth_candidates();
    find_supported_format(
        &candidates,
        table,
        ImageTiling::Optimal,
        FORMAT_FEATURE_DEPTH_STENCIL_ATTACHMENT,
    )
}

/// What is asked of the driver to create the depth image for a swapchain of
/// a given extent.
#[derive(Clone, Copy, Debug, PartialEq, Eq, Structural)]
pub struct DepthResourcePlan {
    pub format: Format,
    /// The image to create.
    pub image: ImageCreateInfo,
    /// The properties its memory must have, as a property mask.
    pub memory_properties: u32,
    /// The planes its view shows, as an aspect mask.
    pub aspect_mask: u32,
}

/// The depth image of this engine in `format`, as large as `extent`:
/// optimally tiled, used as depth-stencil attachment, in device-local memory,
/// viewed by its depth plane.
pub open spec fn depth_plan_spec(format: Format, extent: Extent2D) -> DepthResourcePlan {
    DepthResourcePlan {
        format,
        image: image_create_spec(
            extent.width,
            extent.height,
            format,
            ImageTiling::Optimal,
            IMAGE_USAGE_DEPTH_STENCIL_ATTACHMENT,
        ),
        memory_properties: MEMORY_PROPERTY_DEVICE_LOCAL,
        aspect_mask: IMAGE_ASPECT_DEPTH,
    }
}

/// Plans the depth image for a swapchain of `extent` on a device with the
/// given capability table.
pub fn plan_depth_resources(table: &Vec<FormatProperties>, extent: Extent2D) -> (r: Result<
    DepthResourcePlan,
    UnsupportedFormatError,
>)
    ensures
        r == match select_depth_format(table@) {
            Some(format) => Ok::<DepthResourcePlan, UnsupportedFormatError>(
                depth_plan_spec(format, extent),
            ),
            None => Err(
                UnsupportedFormatError {
                    tiling: ImageTiling::Optimal,
                    features: FORMAT_FEATURE_DEPTH_STENCIL_ATTACHMENT,
                },
            ),
        },
{
    match find_depth_format(table) {
        Ok(format) => {
            let image = image_create_info(
                extent.width,
                extent.height,
                format,
                ImageTiling::Optimal,
                IMAGE_USAGE_DEPTH_STENCIL_ATTACHMENT,
            );
            Ok(
                DepthResourcePlan {
                    format,
                    image,
                    memory_properties: MEMORY_PROPERTY_DEVICE_LOCAL,
                    aspect_mask: IMAGE_ASPECT_DEPTH,
                },
            )
        },
        Err(e) => Err(e),
    }
}

/// What `select_format` picks is a candidate that the table supports, and no
/// candidate before it is supported; it picks nothing only where the table
/// supports no candidate at all.
pub proof fn lemma_select_format_is_first(
    candidates: Seq<Format>,
    table: Seq<FormatProperties>,
    tiling: ImageTiling,
    features: u32,
)
    ensures
        match select_format(candidates, table, tiling, features) {
            Some(format) => exists|k: int|
                {
                    &&& 0 <= k < candidates.len()
                    &&& #[trigger] candidates[k] == format
                    &&& supports(table, format, tiling, features)
                    &&& forall|j: int|
                        0 <= j < k ==> !supports(table, #[trigger] candidates[j], tiling, features)
                },
            None => forall|k: int|
                0 <= k < candidates.len() ==> !supports(
                    table,
                    #[trigger] candidates[k],
                    tiling,
                    features,
                ),
        },
    decreases candidates.len(),
{
    if candidates.len() == 0 {
    } else if supports(table, candidates[0], tiling, features) {
        assert(candidates[0] == candidates[0]);
    } else {
        let rest = candidates.drop_first();
        lemma_select_format_is_first(rest, table, tiling, features);
        assert(forall|j: int| 0 <= j < rest.len() ==> rest[j] == candidates[j + 1]);
        match select_format(rest, table, tiling, features) {
            Some(format) => {
                let k = choose|k: int|
                    {
                        &&& 0 <= k < rest.len()
                        &&& #[trigger] rest[k] == format
                        &&& supports(table, format, tiling, features)
                        &&& forall|j: int|
                            0 <= j < k ==> !supports(table, #[trigger] rest[j], tiling, features)
                    };
                assert(candidates[k + 1] == format);
                assert forall|j: int| 0 <= j < k + 1 implies !supports(
                    table,
                    #[trigger] candidates[j],
                    tiling,
                    features,
                ) by {
                    if j > 0 {
                        assert(candidates[j] == rest[j - 1]);
                    }
                }
            },
            None => {
                assert forall|k: int| 0 <= k < candidates.len() implies !supports(
                    table,
                    #[trigger] candidates[k],
                    tiling,
                    features,
                ) by {
                    if k > 0 {
                        assert(candidates[k] == rest[k - 1]);
                    }
                }
            },
        }
    }
}

/// Selection is deterministic: it is fixed by the candidate list and by what
/// the capability table grants to each candidate, and by nothing else. Two
/// tables that agree on every candidate, and so any table and itself, give
/// the same format or both give none.
pub proof fn lemma_selection_deterministic(
    candidates: Seq<Format>,
    table_a: Seq<FormatProperties>,
    table_b: Seq<FormatProperties>,
    tiling: ImageTiling,
    features: u32,
)
    requires
        forall|k: int|
            0 <= k < candidates.len() ==> supports(
                table_a,
                #[trigger] candidates[k],
                tiling,
                features,
            ) == supports(table_b, candidates[k], tiling, features),
    ensures
        select_format(candidates, table_a, tiling, features) == select_format(
            candidates,
            table_b,
            tiling,
            features,
        ),
    decreases candidates.len(),
{
    if candidates.len() > 0 {
        assert(supports(table_a, candidates[0], tiling, features) == supports(
            table_b,
            candidates[0],
            tiling,
            features,
        ));
        let rest = candidates.drop_first();
        assert forall|k: int| 0 <= k < rest.len() implies supports(
            table_a,
            #[trigger] rest[k],
            tiling,
            features,
        ) == supports(table_b, rest[k], tiling, features) by {
            assert(rest[k] == candidates[k + 1]);
        }
        lemma_selection_deterministic(rest, table_a, table_b, tiling, features);
    }
}

/// Depth-format selection is deterministic: one capability table gives one
/// answer, and two tables that agree on the three depth formats give the
/// same answer.
pub proof fn lemma_depth_format_deterministic(
    table_a: Seq<FormatProperties>,
    table_b: Seq<FormatProperties>,
)
    requires
        forall|k: int|
            0 <= k < depth_candidates_spec().len() ==> supports(
                table_a,
                #[trigger] depth_candidates_spec()[k],
                ImageTiling::Optimal,
                FORMAT_FEATURE_DEPTH_STENCIL_ATTACHMENT,
            ) == supports(
                table_b,
                depth_candidates_spec()[k],
                ImageTiling::Optimal,
                FORMAT_FEATURE_DEPTH_STENCIL_ATTACHMENT,
            ),
    ensures
        select_depth_format(table_a) == select_depth_format(table_b),
{
    lemma_selection_deterministic(
        depth_candidates_spec(),
        table_a,
        table_b,
        ImageTiling::Optimal,
        FORMAT_FEATURE_DEPTH_STENCIL_ATTACHMENT,
    );
}

/// The depth image of one swapchain generation: the image with its memory,
/// and the view through which the render pass uses it.
#[derive(Debug)]
pub struct DepthResource {
    image: MemoryResource,
    view: u64,
    format: Format,
    extent: Extent2D,
}

impl DepthResource {
    /// The image and the memory behind it.
    pub closed spec fn spec_image(&self) -> MemoryResource {
        self.image
    }

    pub closed spec fn spec_view(&self) -> u64 {
        self.view
    }

    pub closed spec fn spec_format(&self) -> Format {
        self.format
    }

    pub closed spec fn spec_extent(&self) -> Extent2D {
        self.extent
    }

    /// Records a depth image of `extent` in `format` and its view. Only an
    /// image can be one: a buffer is handed back.
    pub fn new(image: MemoryResource, view: u64, format: Format, extent: Extent2D) -> (r: Result<
        Self,
        MemoryResource,
    >)
        ensures
            r is Ok <==> image.spec_kind() == ResourceKind::Image,
            r matches Ok(depth) ==> {
                &&& depth.spec_image() == image
                &&& depth.spec_view() == view
                &&& depth.spec_format() == format
                &&& depth.spec_extent() == extent
            },
            r matches Err(back) ==> back == image,
    {
        match image.kind() {
            ResourceKind::Image => Ok(DepthResource { image, view, format, extent }),
            ResourceKind::Buffer => Err(image),
        }
    }

    /// Handle of the view.
    #[verifier::when_used_as_spec(spec_view)]
    pub fn view(&self) -> (v: u64)
        ensures
            v == self.spec_view(),
    {
        self.view
    }

    #[verifier::when_used_as_spec(spec_format)]
    pub fn format(&self) -> (f: Format)
        ensures
            f == self.spec_format(),
    {
        self.format
    }

    /// Size of the image.
    #[verifier::when_used_as_spec(spec_extent)]
    pub fn extent(&self) -> (e: Extent2D)
        ensures
            e == self.spec_extent(),
    {
        self.extent
    }

    /// Handle of the image.
    pub fn image_handle(&self) -> (h: u64)
        ensures
            h == self.spec_image().spec_handle(),
    {
        self.image.handle()
    }

    /// Handle of the memory behind the image.
    pub fn memory_handle(&self) -> (h: u64)
        ensures
            h == self.spec_image().spec_memory(),
    {
        self.image.memory()
    }
}

} // verus!

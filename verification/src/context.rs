//! The graphics context: how the instance and its diagnostics are set up,
//! which adapter and which queue families are used, and in what order the
//! handles the engine owns are released.
use vstd::prelude::*;
use crate::flags::{
    mask_contains, DEBUG_SEVERITY_ERROR, DEBUG_SEVERITY_INFO, DEBUG_SEVERITY_VERBOSE,
    DEBUG_SEVERITY_WARNING, DEBUG_TYPE_GENERAL, DEBUG_TYPE_PERFORMANCE, DEBUG_TYPE_VALIDATION,
};
use crate::types::SharingMode;

verus! {

/// A packed Vulkan version number: variant, major, minor and patch.
pub open spec fn api_version_spec(variant: u32, major: u32, minor: u32, patch: u32) -> u32 {
    (variant << 29u32) | (major << 22u32) | (minor << 12u32) | patch
}

/// Packs a version number with `ash::vk::make_api_version`.
///
/// Trusted: the result is the bitwise or of `variant` shifted left by 29,
/// `major` by 22, `minor` by 12, and `patch`; bits shifted out are lost.
#[verifier::external_body]
pub(crate) fn make_api_version(variant: u32, major: u32, minor: u32, patch: u32) -> (version: u32)
    ensures
        version == api_version_spec(variant, major, minor, patch),
{
    ash::vk::make_api_version(variant, major, minor, patch)
}

/// Name of the debug utilities extension, from
/// `ash::extensions::ext::DebugUtils::name`.
///
/// Trusted: the name is `VK_EXT_debug_utils`.
#[verifier::external_body]
pub(crate) fn debug_utils_extension_name() -> (name: String)
    ensures
        name@ == "VK_EXT_debug_utils"@,
{
    ash::extensions::ext::DebugUtils::name().to_string_lossy().into_owned()
}

/// What the engine tells the driver about itself when it creates the
/// instance.
#[derive(Debug)]
pub struct InstanceConfig {
    pub application_name: String,
    pub application_version: u32,
    pub engine_name: String,
    pub engine_version: u32,
    pub api_version: u32,
    /// Names of the instance extensions to enable, in order.
    pub extensions: Vec<String>,
}

/// Configures the instance: the engine's names and versions, and the
/// extensions that the window needs followed by the debug utilities.
pub fn instance_config(required_extensions: Vec<String>) -> (config: InstanceConfig)
    ensures
        config.application_name@ == "Vulkan Triangle"@,
        config.engine_name@ == "No Engine"@,
        config.application_version == api_version_spec(0, 1, 0, 0),
        config.engine_version == api_version_spec(0, 1, 0, 0),
        config.api_version == api_version_spec(0, 1, 0, 0),
        config.api_version == 0x40_0000,
        config.extensions@.len() == required_extensions@.len() + 1,
        config.extensions@.drop_last() == required_extensions@,
        config.extensions@.last()@ == "VK_EXT_debug_utils"@,
{
    let mut extensions = required_extensions;
    extensions.push(debug_utils_extension_name());
    assert(extensions@.drop_last() =~= required_extensions@);
    proof {
        lemma_api_version_one();
    }
    InstanceConfig {
        application_name: "Vulkan Triangle".to_owned(),
        application_version: make_api_version(0, 1, 0, 0),
        engine_name: "No Engine".to_owned(),
        engine_version: make_api_version(0, 1, 0, 0),
        api_version: make_api_version(0, 1, 0, 0),
        extensions,
    }
}

/// The first version of variant 0, with minor number and patch 0, has only
/// the lowest bit of the major number set.
pub proof fn lemma_api_version_one()
    ensures
        api_version_spec(0, 1, 0, 0) == 0x40_0000,
{
    assert((0u32 << 29u32) | (1u32 << 22u32) | (0u32 << 12u32) | 0u32 == 0x40_0000u32)
        by (bit_vector);
}

/// How serious a diagnostic message of the driver is.
#[derive(Clone, Copy, Debug, PartialEq, Eq, Structural)]
pub enum Severity {
    Verbose,
    Info,
    Warning,
    Error,
}

/// Which diagnostics the driver is asked to report.
#[derive(Clone, Copy, Debug, PartialEq, Eq, Structural)]
pub struct DebugMessengerConfig {
    /// The severities to report, as a severity mask.
    pub message_severity: u32,
    /// The kinds of message to report, as a message type mask.
    pub message_type: u32,
}

impl Severity {
    /// The bit that stands for this severity in a severity mask.
    pub open spec fn bit(self) -> u32 {
        match self {
            Severity::Verbose => DEBUG_SEVERITY_VERBOSE,
            Severity::Info => DEBUG_SEVERITY_INFO,
            Severity::Warning => DEBUG_SEVERITY_WARNING,
            Severity::Error => DEBUG_SEVERITY_ERROR,
        }
    }

    /// Errors and warnings reach the host; the rest is dropped.
    pub open spec fn forwarded(self) -> bool {
        self == Severity::Warning || self == Severity::Error
    }

    /// Whether a message of this severity is handed on to the host.
    pub fn is_forwarded(self) -> (r: bool)
        ensures
            r == self.forwarded(),
    {
        match self {
            Severity::Verbose => false,
            Severity::Info => false,
            Severity::Warning => true,
            Severity::Error => true,
        }
    }
}

/// Configures the diagnostics: errors and warnings, of every kind of
/// message.
pub fn debug_messenger_config() -> (config: DebugMessengerConfig)
    ensures
        config.message_severity == DEBUG_SEVERITY_ERROR | DEBUG_SEVERITY_WARNING,
        config.message_type == DEBUG_TYPE_GENERAL | DEBUG_TYPE_VALIDATION
            | DEBUG_TYPE_PERFORMANCE,
        forall|s: Severity| mask_contains(config.message_severity, #[trigger] s.bit()) == s.forwarded(),
{
    let config = DebugMessengerConfig {
        message_severity: DEBUG_SEVERITY_ERROR | DEBUG_SEVERITY_WARNING,
        message_type: DEBUG_TYPE_GENERAL | DEBUG_TYPE_VALIDATION | DEBUG_TYPE_PERFORMANCE,
    };
    proof {
        assert((0x1000u32 | 0x100u32) & 0x1u32 != 0x1u32) by (bit_vector);
        assert((0x1000u32 | 0x100u32) & 0x10u32 != 0x10u32) by (bit_vector);
        assert((0x1000u32 | 0x100u32) & 0x100u32 == 0x100u32) by (bit_vector);
        assert((0x1000u32 | 0x100u32) & 0x1000u32 == 0x1000u32) by (bit_vector);
    }
    config
}

/// What one queue family of an adapter can do.
#[derive(Clone, Copy, Debug, PartialEq, Eq, Structural)]
pub struct QueueFamily {
    /// The family takes graphics work.
    pub graphics: bool,
    /// The family can present to the window's surface.
    pub present: bool,
}

/// The queue families the engine uses, by their position in the adapter's
/// list. One family may serve for both.
#[derive(Clone, Copy, Debug, PartialEq, Eq, Structural)]
pub struct QueueFamilyIndices {
    pub graphics_family: usize,
    pub present_family: usize,
}

impl QueueFamilyIndices {
    /// One family serves for graphics work and for presenting.
    pub open spec fn unified(self) -> bool {
        self.graphics_family == self.present_family
    }

    /// The families on which the logical device opens a queue, each once.
    pub open spec fn unique_families_spec(self) -> Seq<usize> {
        if self.unified() {
            seq![self.graphics_family]
        } else {
            seq![self.graphics_family, self.present_family]
        }
    }

    /// The families on which the logical device opens a queue, each once.
    pub fn unique_families(&self) -> (families: Vec<usize>)
        ensures
            families@ == self.unique_families_spec(),
    {
        let mut families: Vec<usize> = Vec::new();
        families.push(self.graphics_family);
        if self.graphics_family != self.present_family {
            families.push(self.present_family);
        }
        assert(families@ =~= self.unique_families_spec());
        families
    }

    /// How the images of the swapchain are shared: they belong to the one
    /// family where there is one, and to both where drawing and presenting
    /// are done by different families.
    pub fn sharing_mode(&self) -> (mode: SharingMode)
        ensures
            mode == if self.unified() {
                SharingMode::Exclusive
            } else {
                SharingMode::Concurrent
            },
    {
        if self.graphics_family == self.present_family {
            SharingMode::Exclusive
        } else {
            SharingMode::Concurrent
        }
    }
}

/// Family `i` is the first that takes graphics work.
pub open spec fn first_graphics(families: Seq<QueueFamily>, i: int) -> bool {
    &&& 0 <= i < families.len()
    &&& families[i].graphics
    &&& forall|j: int| 0 <= j < i ==> !(#[trigger] families[j]).graphics
}

/// Family `i` is the first that can present.
pub open spec fn first_present(families: Seq<QueueFamily>, i: int) -> bool {
    &&& 0 <= i < families.len()
    &&& families[i].present
    &&& forall|j: int| 0 <= j < i ==> !(#[trigger] families[j]).present
}

/// Family `i` is the first that does both.
pub open spec fn first_unified(families: Seq<QueueFamily>, i: int) -> bool {
    &&& 0 <= i < families.len()
    &&& families[i].graphics && families[i].present
    &&& forall|j: int|
        0 <= j < i ==> !((#[trigger] families[j]).graphics && families[j].present)
}

/// Some family does both.
pub open spec fn has_unified(families: Seq<QueueFamily>) -> bool {
    exists|i: int| 0 <= i < families.len() && (#[trigger] families[i]).graphics && families[i].present
}

/// Some family takes graphics work, and some family can present.
pub open spec fn has_both_capabilities(families: Seq<QueueFamily>) -> bool {
    &&& exists|i: int| 0 <= i < families.len() && (#[trigger] families[i]).graphics
    &&& exists|i: int| 0 <= i < families.len() && (#[trigger] families[i]).present
}

/// `indices` is the engine's choice among `families`: the first family that
/// does both where there is one, else the first that takes graphics work and
/// the first that can present.
pub open spec fn chosen_families(families: Seq<QueueFamily>, indices: QueueFamilyIndices) -> bool {
    if has_unified(families) {
        &&& indices.graphics_family == indices.present_family
        &&& first_unified(families, indices.graphics_family as int)
    } else {
        &&& first_graphics(families, indices.graphics_family as int)
        &&& first_present(families, indices.present_family as int)
    }
}

/// Chooses the queue families for graphics work and for presenting.
pub fn find_queue_families(families: &Vec<QueueFamily>) -> (r: Option<QueueFamilyIndices>)
    ensures
        r is Some <==> has_both_capabilities(families@),
        r matches Some(indices) ==> chosen_families(families@, indices),
{
    let mut graphics: Option<usize> = None;
    let mut present: Option<usize> = None;
    let mut i: usize = 0;
    while i < families.len()
        invariant
            i <= families.len(),
            forall|j: int|
                0 <= j < i ==> !((#[trigger] families@[j]).graphics && families@[j].present),
            match graphics {
                Some(g) => g < i && first_graphics(families@, g as int),
                None => forall|j: int| 0 <= j < i ==> !(#[trigger] families@[j]).graphics,
            },
            match present {
                Some(p) => p < i && first_present(families@, p as int),
                None => forall|j: int| 0 <= j < i ==> !(#[trigger] families@[j]).present,
            },
        decreases families.len() - i,
    {
        let family = families[i];
        if family.graphics && family.present {
            assert(first_unified(families@, i as int));
            return Some(QueueFamilyIndices { graphics_family: i, present_family: i });
        }
        if family.graphics && graphics.is_none() {
            graphics = Some(i);
        }
        if family.present && present.is_none() {
            present = Some(i);
        }
        i = i + 1;
    }
    match (graphics, present) {
        (Some(g), Some(p)) => Some(QueueFamilyIndices { graphics_family: g, present_family: p }),
        _ => None,
    }
}

/// What is known of one adapter of the machine.
#[derive(Debug)]
pub struct Adapter {
    pub families: Vec<QueueFamily>,
    /// The adapter has the extension that presenting needs.
    pub supports_presentation: bool,
}

/// The adapter the engine runs on, by its position in the machine's list,
/// and the queue families used on it.
#[derive(Clone, Copy, Debug, PartialEq, Eq, Structural)]
pub struct DeviceChoice {
    pub adapter: usize,
    pub queues: QueueFamilyIndices,
}

/// No adapter of the machine can both draw and present.
#[derive(Clone, Copy, Debug, PartialEq, Eq, Structural)]
pub struct DeviceSelectionError {
    /// How many adapters were looked at.
    pub adapters: usize,
}

/// The adapter can run the engine: it has the presentation extension, a
/// family for graphics work and a family that presents.
pub open spec fn adapter_suitable(adapter: Adapter) -> bool {
    adapter.supports_presentation && has_both_capabilities(adapter.families@)
}

/// Chooses the first adapter that can run the engine, and its queue
/// families.
pub fn select_adapter(adapters: &Vec<Adapter>) -> (r: Result<DeviceChoice, DeviceSelectionError>)
    ensures
        r is Ok <==> exists|i: int|
            0 <= i < adapters.len() && adapter_suitable(#[trigger] adapters@[i]),
        r matches Ok(choice) ==> {
            &&& choice.adapter < adapters.len()
            &&& adapter_suitable(adapters@[choice.adapter as int])
            &&& forall|j: int| 0 <= j < choice.adapter ==> !adapter_suitable(#[trigger] adapters@[j])
            &&& chosen_families(adapters@[choice.adapter as int].families@, choice.queues)
        },
        r matches Err(e) ==> e.adapters == adapters.len(),
{
    let mut i: usize = 0;
    while i < adapters.len()
        invariant
            i <= adapters.len(),
            forall|j: int| 0 <= j < i ==> !adapter_suitable(#[trigger] adapters@[j]),
        decreases adapters.len() - i,
    {
        if adapters[i].supports_presentation {
            match find_queue_families(&adapters[i].families) {
                Some(queues) => {
                    assert(adapter_suitable(adapters@[i as int]));
                    return Ok(DeviceChoice { adapter: i, queues });
                },
                None => {},
            }
        }
        i = i + 1;
    }
    Err(DeviceSelectionError { adapters: adapters.len() })
}

/// The kinds of handle the engine creates.
#[derive(Clone, Copy, Debug, PartialEq, Eq, Structural)]
pub enum HandleKind {
    Instance,
    DebugMessenger,
    Surface,
    Device,
    Swapchain,
    ImageView,
    RenderPass,
    Framebuffer,
    DescriptorSetLayout,
    DescriptorPool,
    PipelineLayout,
    Pipeline,
    CommandPool,
    Buffer,
    Image,
    Memory,
    Semaphore,
    Fence,
}

/// A handle the engine has created and must release.
#[derive(Clone, Copy, Debug, PartialEq, Eq, Structural)]
pub struct OwnedHandle {
    pub kind: HandleKind,
    pub raw: u64,
}

/// One step of shutting the engine down.
#[derive(Clone, Copy, Debug, PartialEq, Eq, Structural)]
pub enum TeardownStep {
    /// Block until the device has finished all work it was given.
    WaitDeviceIdle,
    /// Release one handle.
    Release(OwnedHandle),
}

/// Shutting down: first wait for the device, then release every handle, the
/// one created last first.
pub open spec fn teardown_spec(owned: Seq<OwnedHandle>) -> Seq<TeardownStep> {
    seq![TeardownStep::WaitDeviceIdle] + Seq::new(
        owned.len(),
        |i: int| TeardownStep::Release(owned[owned.len() - 1 - i]),
    )
}

/// The long-lived connection to the device: which adapter and queue families
/// are in use, and every handle created so far, in order of creation.
#[derive(Debug)]
pub struct GraphicsContext {
    choice: DeviceChoice,
    owned: Vec<OwnedHandle>,
}

impl GraphicsContext {
    /// The adapter and queue families in use.
    pub closed spec fn spec_choice(&self) -> DeviceChoice {
        self.choice
    }

    /// The handles created so far, oldest first.
    pub closed spec fn owned(&self) -> Seq<OwnedHandle> {
        self.owned@
    }

    /// Chooses an adapter and starts a context that owns nothing yet.
    pub fn initialize(adapters: &Vec<Adapter>) -> (r: Result<Self, DeviceSelectionError>)
        ensures
            r is Ok <==> exists|i: int|
                0 <= i < adapters.len() && adapter_suitable(#[trigger] adapters@[i]),
            r matches Ok(context) ==> {
                &&& context.owned() == Seq::<OwnedHandle>::empty()
                &&& context.spec_choice().adapter < adapters.len()
                &&& adapter_suitable(adapters@[context.spec_choice().adapter as int])
                &&& forall|j: int|
                    0 <= j < context.spec_choice().adapter ==> !adapter_suitable(
                        #[trigger] adapters@[j],
                    )
                &&& chosen_families(
                    adapters@[context.spec_choice().adapter as int].families@,
                    context.spec_choice().queues,
                )
            },
            r matches Err(e) ==> e.adapters == adapters.len(),
    {
        match select_adapter(adapters) {
            Ok(choice) => Ok(GraphicsContext { choice, owned: Vec::new() }),
            Err(e) => Err(e),
        }
    }

    #[verifier::when_used_as_spec(spec_choice)]
    pub fn choice(&self) -> (c: DeviceChoice)
        ensures
            c == self.spec_choice(),
    {
        self.choice
    }

    /// Records a handle that was just created.
    pub fn register(&mut self, handle: OwnedHandle)
        ensures
            final(self).owned() == old(self).owned().push(handle),
            final(self).spec_choice() == old(self).spec_choice(),
    {
        self.owned.push(handle);
    }

    /// Ends the context and says how to shut down: wait for the device, then
    /// release every handle in the reverse of the order of creation.
    pub fn teardown(self) -> (steps: Vec<TeardownStep>)
        ensures
            steps@ == teardown_spec(self.owned()),
    {
        let mut steps: Vec<TeardownStep> = Vec::new();
        steps.push(TeardownStep::WaitDeviceIdle);
        let mut remaining: usize = self.owned.len();
        while remaining > 0
            invariant
                remaining <= self.owned.len(),
                steps@.len() == 1 + self.owned.len() - remaining,
                steps@[0] == TeardownStep::WaitDeviceIdle,
                forall|k: int|
                    1 <= k < steps@.len() ==> #[trigger] steps@[k] == TeardownStep::Release(
                        self.owned@[self.owned.len() - k],
                    ),
            decreases remaining,
        {
            remaining = remaining - 1;
            steps.push(TeardownStep::Release(self.owned[remaining]));
        }
        proof {
            let expected = teardown_spec(self.owned());
            assert(steps@.len() == expected.len());
            assert forall|k: int| 0 <= k < steps@.len() implies steps@[k] == expected[k] by {
                if k > 0 {
                    assert(expected[k] == TeardownStep::Release(
                        self.owned@[self.owned.len() - 1 - (k - 1)],
                    ));
                }
            }
            assert(steps@ =~= expected);
        }
        steps
    }
}

/// Shutting down waits for the device before anything is released, releases
/// every handle once, and releases a handle only after all that were created
/// later.
pub proof fn lemma_teardown_order(owned: Seq<OwnedHandle>)
    ensures
        teardown_spec(owned).len() == owned.len() + 1,
        teardown_spec(owned)[0] == TeardownStep::WaitDeviceIdle,
        forall|i: int|
            0 <= i < owned.len() ==> teardown_spec(owned)[owned.len() - i] == TeardownStep::Release(
                #[trigger] owned[i],
            ),
{
}

} // verus!

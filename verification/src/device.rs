//! Device capability discovery: queue families, extensions, surface formats,
//! present modes and optional features of one candidate physical device.
//!
//! All values here are plain data handed over by the driver boundary; the
//! descriptor is never mutated after construction.

use vstd::prelude::*;

verus! {

/// Queue capability bit for graphics work, as the driver reports it.
pub const QUEUE_GRAPHICS: u32 = 0x1;

/// Queue capability bit for compute work.
pub const QUEUE_COMPUTE: u32 = 0x2;

/// Queue capability bit for transfer work.
pub const QUEUE_TRANSFER: u32 = 0x4;

/// The driver's boolean encoding of "supported".
pub const BOOL32_TRUE: u32 = 1;

/// Raw properties of one queue family exactly as the driver enumerates them.
#[derive(Clone, Copy, PartialEq, Eq, Structural, Debug)]
pub struct QueueFamilyProperties {
    /// Bitmask of `QUEUE_*` capability bits.
    pub capability_flags: u32,
    /// Number of queues the family offers.
    pub queue_count: u32,
}

/// One hardware queue family: capabilities, queue count and whether it can
/// present to the selection surface. Immutable once constructed; `index` is
/// the position in the driver's enumeration order.
#[derive(Clone, Copy, PartialEq, Eq, Structural, Debug)]
pub struct QueueFamilyInfo {
    pub index: u32,
    pub capability_flags: u32,
    pub queue_count: u32,
    pub supports_present: bool,
}

/// Raw reply block of the ray-tracing-pipeline feature query.
#[derive(Clone, Copy, PartialEq, Eq, Structural, Debug)]
pub struct RayTracingFeatures {
    pub ray_tracing_pipeline: u32,
}

/// Raw reply block of the acceleration-structure feature query.
#[derive(Clone, Copy, PartialEq, Eq, Structural, Debug)]
pub struct AccelerationStructureFeatures {
    pub acceleration_structure: u32,
}

/// Raw reply block of the first core feature-revision query.
#[derive(Clone, Copy, PartialEq, Eq, Structural, Debug)]
pub struct CoreFeatures12 {
    pub runtime_descriptor_array: u32,
    pub buffer_device_address: u32,
}

/// Raw reply block of the second core feature-revision query.
#[derive(Clone, Copy, PartialEq, Eq, Structural, Debug)]
pub struct CoreFeatures13 {
    pub dynamic_rendering: u32,
    pub synchronization2: u32,
}

/// One chained feature query's reply: each block is `Some` with the driver's
/// raw booleans when the driver answered for that block, and `None` when the
/// block was entirely absent from the reply.
#[derive(Clone, Copy, PartialEq, Eq, Structural, Debug)]
pub struct FeatureQueryReply {
    pub ray_tracing: Option<RayTracingFeatures>,
    pub acceleration: Option<AccelerationStructureFeatures>,
    pub core12: Option<CoreFeatures12>,
    pub core13: Option<CoreFeatures13>,
}

/// Boolean record of optional capabilities. A flag is `true` only when the
/// corresponding query block was present and reported support.
#[derive(Clone, Copy, PartialEq, Eq, Structural, Debug)]
pub struct DeviceFeatureSet {
    pub ray_tracing_pipeline: bool,
    pub acceleration_structure: bool,
    pub runtime_descriptor_array: bool,
    pub buffer_device_address: bool,
    pub dynamic_rendering: bool,
    pub synchronization2: bool,
}

/// What `DeviceFeatureSet::from_reply` computes: each flag holds exactly when
/// its block is present and reports the driver's "supported" value.
pub open spec fn feature_set_of_reply(reply: FeatureQueryReply) -> DeviceFeatureSet {
    DeviceFeatureSet {
        ray_tracing_pipeline: match reply.ray_tracing {
            Some(b) => b.ray_tracing_pipeline == BOOL32_TRUE,
            None => false,
        },
        acceleration_structure: match reply.acceleration {
            Some(b) => b.acceleration_structure == BOOL32_TRUE,
            None => false,
        },
        runtime_descriptor_array: match reply.core12 {
            Some(b) => b.runtime_descriptor_array == BOOL32_TRUE,
            None => false,
        },
        buffer_device_address: match reply.core12 {
            Some(b) => b.buffer_device_address == BOOL32_TRUE,
            None => false,
        },
        dynamic_rendering: match reply.core13 {
            Some(b) => b.dynamic_rendering == BOOL32_TRUE,
            None => false,
        },
        synchronization2: match reply.core13 {
            Some(b) => b.synchronization2 == BOOL32_TRUE,
            None => false,
        },
    }
}

impl DeviceFeatureSet {
    /// Project a chained feature query's reply into the flat feature record.
    pub fn from_reply(reply: &FeatureQueryReply) -> (r: DeviceFeatureSet)
        ensures
            r == feature_set_of_reply(*reply),
    {
        DeviceFeatureSet {
            ray_tracing_pipeline: match reply.ray_tracing {
                Some(b) => b.ray_tracing_pipeline == BOOL32_TRUE,
                None => false,
            },
            acceleration_structure: match reply.acceleration {
                Some(b) => b.acceleration_structure == BOOL32_TRUE,
                None => false,
            },
            runtime_descriptor_array: match reply.core12 {
                Some(b) => b.runtime_descriptor_array == BOOL32_TRUE,
                None => false,
            },
            buffer_device_address: match reply.core12 {
                Some(b) => b.buffer_device_address == BOOL32_TRUE,
                None => false,
            },
            dynamic_rendering: match reply.core13 {
                Some(b) => b.dynamic_rendering == BOOL32_TRUE,
                None => false,
            },
            synchronization2: match reply.core13 {
                Some(b) => b.synchronization2 == BOOL32_TRUE,
                None => false,
            },
        }
    }
}

/// A feature flag is true only when its query block was present and reported
/// support, and a block entirely absent from the reply yields `false` for
/// every flag of that block, never an error.
pub proof fn lemma_feature_flags_only_when_reported(reply: FeatureQueryReply)
    ensures
        feature_set_of_reply(reply).ray_tracing_pipeline ==> reply.ray_tracing is Some
            && reply.ray_tracing->0.ray_tracing_pipeline == BOOL32_TRUE,
        feature_set_of_reply(reply).acceleration_structure ==> reply.acceleration is Some
            && reply.acceleration->0.acceleration_structure == BOOL32_TRUE,
        feature_set_of_reply(reply).runtime_descriptor_array ==> reply.core12 is Some
            && reply.core12->0.runtime_descriptor_array == BOOL32_TRUE,
        feature_set_of_reply(reply).buffer_device_address ==> reply.core12 is Some
            && reply.core12->0.buffer_device_address == BOOL32_TRUE,
        feature_set_of_reply(reply).dynamic_rendering ==> reply.core13 is Some
            && reply.core13->0.dynamic_rendering == BOOL32_TRUE,
        feature_set_of_reply(reply).synchronization2 ==> reply.core13 is Some
            && reply.core13->0.synchronization2 == BOOL32_TRUE,
        reply.ray_tracing is None ==> !feature_set_of_reply(reply).ray_tracing_pipeline,
        reply.acceleration is None ==> !feature_set_of_reply(reply).acceleration_structure,
        reply.core12 is None ==> !feature_set_of_reply(reply).runtime_descriptor_array
            && !feature_set_of_reply(reply).buffer_device_address,
        reply.core13 is None ==> !feature_set_of_reply(reply).dynamic_rendering
            && !feature_set_of_reply(reply).synchronization2,
{
}

/// Device classification, decoded from the driver's raw device-type value.
#[derive(Clone, Copy, PartialEq, Eq, Structural, Debug)]
pub enum DeviceType {
    Other,
    IntegratedGpu,
    DiscreteGpu,
    VirtualGpu,
    Cpu,
}

/// What `DeviceType::from_raw` computes: the driver's device-type code.
pub open spec fn spec_device_type_of_raw(raw: u32) -> DeviceType {
    if raw == 1 {
        DeviceType::IntegratedGpu
    } else if raw == 2 {
        DeviceType::DiscreteGpu
    } else if raw == 3 {
        DeviceType::VirtualGpu
    } else if raw == 4 {
        DeviceType::Cpu
    } else {
        DeviceType::Other
    }
}

impl DeviceType {
    /// Decode the driver's raw device-type value.
    pub fn from_raw(raw: u32) -> (r: DeviceType)
        ensures
            r == spec_device_type_of_raw(raw),
    {
        if raw == 1 {
            DeviceType::IntegratedGpu
        } else if raw == 2 {
            DeviceType::DiscreteGpu
        } else if raw == 3 {
            DeviceType::VirtualGpu
        } else if raw == 4 {
            DeviceType::Cpu
        } else {
            DeviceType::Other
        }
    }
}

/// A presentation mode the surface supports for this device, decoded from the
/// driver's raw present-mode value.
#[derive(Clone, Copy, PartialEq, Eq, Structural, Debug)]
pub enum PresentMode {
    Immediate,
    Mailbox,
    Fifo,
    FifoRelaxed,
    SharedDemandRefresh,
    SharedContinuousRefresh,
    /// A mode this layer does not know; the raw value is kept.
    Unknown(u32),
}

/// What `PresentMode::from_raw` computes: the driver's present-mode code.
pub open spec fn spec_present_mode_of_raw(raw: u32) -> PresentMode {
    if raw == 0 {
        PresentMode::Immediate
    } else if raw == 1 {
        PresentMode::Mailbox
    } else if raw == 2 {
        PresentMode::Fifo
    } else if raw == 3 {
        PresentMode::FifoRelaxed
    } else if raw == 1000111000 {
        PresentMode::SharedDemandRefresh
    } else if raw == 1000111001 {
        PresentMode::SharedContinuousRefresh
    } else {
        PresentMode::Unknown(raw)
    }
}

impl PresentMode {
    /// Decode the driver's raw present-mode value.
    pub fn from_raw(raw: u32) -> (r: PresentMode)
        ensures
            r == spec_present_mode_of_raw(raw),
    {
        if raw == 0 {
            PresentMode::Immediate
        } else if raw == 1 {
            PresentMode::Mailbox
        } else if raw == 2 {
            PresentMode::Fifo
        } else if raw == 3 {
            PresentMode::FifoRelaxed
        } else if raw == 1000111000 {
            PresentMode::SharedDemandRefresh
        } else if raw == 1000111001 {
            PresentMode::SharedContinuousRefresh
        } else {
            PresentMode::Unknown(raw)
        }
    }
}

/// One supported surface pixel format paired with its color space, both kept
/// as the driver's raw codes.
#[derive(Clone, Copy, PartialEq, Eq, Structural, Debug)]
pub struct SurfaceFormat {
    pub format: u32,
    pub color_space: u32,
}

/// The character sequences of a sequence of strings.
pub open spec fn string_views(v: Seq<String>) -> Seq<Seq<char>> {
    v.map_values(|s: String| s@)
}

/// Every string of `required` occurs, case-sensitively and exactly, among
/// `supported`.
pub open spec fn spec_supports_extensions(supported: Seq<String>, required: Seq<String>) -> bool {
    forall|i: int|
        0 <= i < required.len() ==> string_views(supported).contains(#[trigger] required[i]@)
}

/// Whether some string of `v` has exactly the characters of `s`.
fn contains_string(v: &Vec<String>, s: &String) -> (r: bool)
    ensures
        r == string_views(v@).contains(s@),
{
    let mut j: usize = 0;
    while j < v.len()
        invariant
            j <= v@.len(),
            forall|k: int| 0 <= k < j ==> (#[trigger] v@[k])@ != s@,
        decreases v@.len() - j,
    {
        if v[j] == *s {
            assert(string_views(v@)[j as int] == s@);
            return true;
        }
        j += 1;
    }
    assert forall|i: int| 0 <= i < string_views(v@).len() implies string_views(v@)[i] != s@ by {
        assert(v@[i]@ != s@);
    }
    false
}

/// One candidate physical device: identity, queue topology, extension list,
/// surface formats, present modes and optional features, all as reported by
/// one enumeration pass over the driver. Never mutated after construction.
#[derive(Clone, Debug)]
pub struct VkPhysicalDevice {
    /// The driver's raw handle value, kept only as an identifier.
    pub handle_id: u64,
    pub name: String,
    pub device_type: DeviceType,
    pub queue_families: Vec<QueueFamilyInfo>,
    pub supported_extensions: Vec<String>,
    pub supported_surface_formats: Vec<SurfaceFormat>,
    pub supported_present_modes: Vec<PresentMode>,
    pub supported_device_features: DeviceFeatureSet,
}

impl VkPhysicalDevice {
    /// Each queue family's `index` equals its position in the driver's
    /// enumeration order.
    pub open spec fn wf(self) -> bool {
        forall|i: int|
            0 <= i < self.queue_families@.len() ==> (#[trigger] self.queue_families@[i]).index
                == i as u32
    }

    /// Build the descriptor from the plain values one enumeration pass
    /// reports. Queue families keep the driver's order; the family at
    /// position `i` gets index `i` and the `i`-th presentation answer.
    pub fn new(
        handle_id: u64,
        name: String,
        device_type_raw: u32,
        queue_family_props: Vec<QueueFamilyProperties>,
        present_support: Vec<bool>,
        supported_extensions: Vec<String>,
        supported_surface_formats: Vec<SurfaceFormat>,
        present_mode_raws: Vec<u32>,
        features: FeatureQueryReply,
    ) -> (r: VkPhysicalDevice)
        requires
            queue_family_props@.len() == present_support@.len(),
            queue_family_props@.len() <= u32::MAX,
        ensures
            r.wf(),
            r.handle_id == handle_id,
            r.name == name,
            r.device_type == spec_device_type_of_raw(device_type_raw),
            r.queue_families@.len() == queue_family_props@.len(),
            forall|i: int|
                0 <= i < queue_family_props@.len() ==> {
                    let f = #[trigger] r.queue_families@[i];
                    &&& f.index == i as u32
                    &&& f.capability_flags == queue_family_props@[i].capability_flags
                    &&& f.queue_count == queue_family_props@[i].queue_count
                    &&& f.supports_present == present_support@[i]
                },
            r.supported_extensions == supported_extensions,
            r.supported_surface_formats == supported_surface_formats,
            r.supported_present_modes@.len() == present_mode_raws@.len(),
            forall|i: int|
                0 <= i < present_mode_raws@.len() ==> #[trigger] r.supported_present_modes@[i]
                    == spec_present_mode_of_raw(present_mode_raws@[i]),
            r.supported_device_features == feature_set_of_reply(features),
    {
        let mut queue_families: Vec<QueueFamilyInfo> = Vec::new();
        let mut i: usize = 0;
        while i < queue_family_props.len()
            invariant
                i <= queue_family_props@.len(),
                queue_family_props@.len() == present_support@.len(),
                queue_family_props@.len() <= u32::MAX,
                queue_families@.len() == i,
                forall|k: int|
                    0 <= k < i ==> {
                        let f = #[trigger] queue_families@[k];
                        &&& f.index == k as u32
                        &&& f.capability_flags == queue_family_props@[k].capability_flags
                        &&& f.queue_count == queue_family_props@[k].queue_count
                        &&& f.supports_present == present_support@[k]
                    },
            decreases queue_family_props@.len() - i,
        {
            let props = queue_family_props[i];
            queue_families.push(
                QueueFamilyInfo {
                    index: i as u32,
                    capability_flags: props.capability_flags,
                    queue_count: props.queue_count,
                    supports_present: present_support[i],
                },
            );
            i += 1;
        }

        let mut supported_present_modes: Vec<PresentMode> = Vec::new();
        let mut j: usize = 0;
        while j < present_mode_raws.len()
            invariant
                j <= present_mode_raws@.len(),
                supported_present_modes@.len() == j,
                forall|k: int|
                    0 <= k < j ==> #[trigger] supported_present_modes@[k]
                        == spec_present_mode_of_raw(present_mode_raws@[k]),
            decreases present_mode_raws@.len() - j,
        {
            supported_present_modes.push(PresentMode::from_raw(present_mode_raws[j]));
            j += 1;
        }

        VkPhysicalDevice {
            handle_id,
            name,
            device_type: DeviceType::from_raw(device_type_raw),
            queue_families,
            supported_extensions,
            supported_surface_formats,
            supported_present_modes,
            supported_device_features: DeviceFeatureSet::from_reply(&features),
        }
    }

    /// True iff every entry of `extensions` is present, by exact
    /// case-sensitive comparison, in this device's supported-extension list.
    /// An empty requirement list is always satisfied.
    pub fn supports_extensions(&self, extensions: &Vec<String>) -> (r: bool)
        ensures
            r == spec_supports_extensions(self.supported_extensions@, extensions@),
    {
        let mut i: usize = 0;
        while i < extensions.len()
            invariant
                i <= extensions@.len(),
                forall|k: int|
                    0 <= k < i ==> string_views(self.supported_extensions@).contains(
                        (#[trigger] extensions@[k])@,
                    ),
            decreases extensions@.len() - i,
        {
            if !contains_string(&self.supported_extensions, &extensions[i]) {
                return false;
            }
            i += 1;
        }
        true
    }
}

/// The extension check fails only by exhibiting a missing requirement: when
/// it does not hold, some required name occurs nowhere in the supported list.
/// An empty requirement is always satisfied.
pub proof fn lemma_supports_extensions_law(supported: Seq<String>, required: Seq<String>)
    ensures
        !spec_supports_extensions(supported, required) ==> exists|i: int|
            0 <= i < required.len() && !string_views(supported).contains(#[trigger] required[i]@),
        spec_supports_extensions(supported, Seq::<String>::empty()),
{
}

/// A well-formed descriptor's queue-family sequence keeps the driver's
/// enumeration order: the family at position `i` carries index `i`.
pub proof fn lemma_queue_family_index_is_position(d: VkPhysicalDevice, i: int)
    requires
        d.wf(),
        0 <= i < d.queue_families@.len(),
    ensures
        d.queue_families@[i].index == i as u32,
{
}

} // verus!

//! What the instance and the logical device are created with.

use vstd::prelude::*;
use crate::error::{Error, SuitabilityError};
use vulkanalia::vk::make_version;

verus! {

/// `vulkanalia::vk::make_version` packs a version number into one word: the
/// major number shifted left by 22 bits, the minor number shifted left by 12
/// bits, and the patch number, combined with bitwise or. Bits shifted past
/// the word are dropped.
pub assume_specification[ vulkanalia::vk::make_version ](major: u32, minor: u32, patch: u32) -> (r:
    u32)
    ensures
        r == packed_version(major, minor, patch),
;

/// A version number packed into one word.
pub open spec fn packed_version(major: u32, minor: u32, patch: u32) -> u32 {
    (major << 22) | (minor << 12) | patch
}

/// The name of the validation layer.
pub open spec fn validation_layer_name() -> Seq<char> {
    "VK_LAYER_KHRONOS_validation"@
}

/// The name of the portability subset extension.
pub open spec fn portability_subset_name() -> Seq<char> {
    "VK_KHR_portability_subset"@
}

/// What the payload of a [`SuitabilityError`] reads when validation is asked
/// for and the layer is not installed.
pub open spec fn no_validation_layer() -> Seq<char> {
    "no validation layer"@
}

/// Whether `name` is among `names`.
pub open spec fn lists(names: Seq<String>, name: Seq<char>) -> bool {
    exists|i: int| 0 <= i < names.len() && (#[trigger] names[i])@ == name
}

/// Tells whether `name` is among `names`.
pub fn is_listed(names: &Vec<String>, name: &str) -> (r: bool)
    ensures
        r == lists(names@, name@),
{
    let wanted = name.to_owned();
    let mut i: usize = 0;
    while i < names.len()
        invariant
            wanted@ == name@,
            i <= names@.len(),
            forall|j: int| 0 <= j < i ==> (#[trigger] names@[j])@ != name@,
        decreases names@.len() - i,
    {
        if names[i] == wanted {
            return true;
        }
        i += 1;
    }
    false
}

/// The application info and the layers an instance is created with.
#[derive(Debug)]
pub struct InstancePlan {
    pub application_name: &'static str,
    pub application_version: u32,
    pub engine_name: &'static str,
    pub engine_version: u32,
    pub api_version: u32,
    pub layers: Vec<&'static str>,
}

/// The layers to enable: the validation layer where validation is on, else
/// none.
pub open spec fn enabled_layers(validation_enabled: bool) -> Seq<Seq<char>> {
    if validation_enabled {
        seq![validation_layer_name()]
    } else {
        Seq::empty()
    }
}

/// The names in `names`, each as its characters.
pub open spec fn name_views(names: Seq<&'static str>) -> Seq<Seq<char>> {
    names.map_values(|name: &'static str| name@)
}

/// The layers to enable.
pub fn layers_for(validation_enabled: bool) -> (layers: Vec<&'static str>)
    ensures
        name_views(layers@) == enabled_layers(validation_enabled),
{
    let mut layers: Vec<&'static str> = Vec::new();
    if validation_enabled {
        layers.push("VK_LAYER_KHRONOS_validation");
    }
    assert(name_views(layers@) =~= enabled_layers(validation_enabled));
    layers
}

/// Plans the instance. Fails exactly when validation is asked for and the
/// validation layer is not among the available layers.
pub fn create_instance(validation_enabled: bool, available_layers: &Vec<String>) -> (r: Result<
    InstancePlan,
    Error,
>)
    ensures
        match r {
            Ok(plan) => {
                &&& !validation_enabled || lists(available_layers@, validation_layer_name())
                &&& plan.application_name@ == "VKFromFileComputeSample"@
                &&& plan.application_version == packed_version(1, 0, 0)
                &&& plan.engine_name@ == "No Engine"@
                &&& plan.engine_version == packed_version(1, 0, 0)
                &&& plan.api_version == packed_version(1, 1, 0)
                &&& name_views(plan.layers@) == enabled_layers(validation_enabled)
            },
            Err(e) => {
                &&& validation_enabled
                &&& !lists(available_layers@, validation_layer_name())
                &&& e matches Error::Suitability(s)
                &&& s.0@ == no_validation_layer()
            },
        },
{
    if validation_enabled && !is_listed(available_layers, "VK_LAYER_KHRONOS_validation") {
        return Err(Error::Suitability(SuitabilityError("no validation layer")));
    }
    Ok(
        InstancePlan {
            application_name: "VKFromFileComputeSample",
            application_version: make_version(1, 0, 0),
            engine_name: "No Engine",
            engine_version: make_version(1, 0, 0),
            api_version: make_version(1, 1, 0),
            layers: layers_for(validation_enabled),
        },
    )
}

/// The packed forms of the two versions the instance is created with.
pub proof fn lemma_versions()
    ensures
        packed_version(1, 0, 0) == 0x40_0000,
        packed_version(1, 1, 0) == 0x40_1000,
{
    assert((1u32 << 22) | (0u32 << 12) | 0u32 == 0x40_0000u32) by (bit_vector);
    assert((1u32 << 22) | (1u32 << 12) | 0u32 == 0x40_1000u32) by (bit_vector);
}

/// Tells whether a device offers the portability subset extension.
pub fn has_portability_subset_extension(extensions: &Vec<String>) -> (r: bool)
    ensures
        r == lists(extensions@, portability_subset_name()),
{
    is_listed(extensions, "VK_KHR_portability_subset")
}

/// Where the device features come from.
#[derive(Debug, Clone, Copy, PartialEq, Eq, Structural)]
pub enum FeatureSource {
    /// The core feature record, with every feature off.
    Core,
    /// The extended feature record as the device reports it, chained to the
    /// create info.
    Queried,
}

/// What the logical device is created with: one queue of one family, the
/// layers, the extensions and the source of the features.
#[derive(Debug)]
pub struct DevicePlan {
    pub queue_family_index: u32,
    pub queue_count: u32,
    pub layers: Vec<&'static str>,
    pub extensions: Vec<&'static str>,
    pub features: FeatureSource,
}

/// The extensions to enable: the portability subset where the device offers
/// it, else none.
pub open spec fn enabled_extensions(has_portability_subset: bool) -> Seq<Seq<char>> {
    if has_portability_subset {
        seq![portability_subset_name()]
    } else {
        Seq::empty()
    }
}

/// Plans the logical device. A device that offers the portability subset
/// gets that extension and the queried features; any other gets no
/// extension and the core features.
pub fn create_device(
    queue_family_index: u32,
    validation_enabled: bool,
    has_portability_subset: bool,
) -> (plan: DevicePlan)
    ensures
        plan.queue_family_index == queue_family_index,
        plan.queue_count == 1,
        name_views(plan.layers@) == enabled_layers(validation_enabled),
        name_views(plan.extensions@) == enabled_extensions(has_portability_subset),
        plan.features == if has_portability_subset {
            FeatureSource::Queried
        } else {
            FeatureSource::Core
        },
{
    let mut extensions: Vec<&'static str> = Vec::new();
    if has_portability_subset {
        extensions.push("VK_KHR_portability_subset");
    }
    assert(name_views(extensions@) =~= enabled_extensions(has_portability_subset));
    DevicePlan {
        queue_family_index,
        queue_count: 1,
        layers: layers_for(validation_enabled),
        extensions,
        features: if has_portability_subset {
            FeatureSource::Queried
        } else {
            FeatureSource::Core
        },
    }
}

} // verus!

//! Device and queue family selection.

use vstd::prelude::*;
use crate::error::{Error, SuitabilityError, no_compute_queue, no_device};
use crate::flags::{contains, is_superset, QUEUE_COMPUTE};

verus! {

/// One queue family of a device: what it accepts and how many queues it has.
#[derive(Debug, Clone, Copy)]
pub struct QueueFamily {
    pub queue_flags: u32,
    pub queue_count: u32,
}

/// One device as enumeration reported it.
#[derive(Debug)]
pub struct DeviceDescriptor {
    pub vendor_id: u32,
    pub device_id: u32,
    pub name: String,
    pub has_compute_queue: bool,
}

/// The device section of the settings: take the first usable device, or the
/// one with a given id.
#[derive(Debug, Clone, Copy)]
pub struct DeviceConfig {
    pub first_device: bool,
    pub device_id: Option<u32>,
}

/// The settings record.
#[derive(Debug, Clone, Copy)]
pub struct Config {
    pub device: DeviceConfig,
}

/// How a device is chosen among the compute-capable ones.
#[derive(Debug, Clone, Copy)]
pub enum SelectionPolicy {
    /// The first one.
    FirstAvailable,
    /// The first one with this device id.
    SpecificId(u32),
}

/// Whether the family accepts dispatch commands.
pub open spec fn accepts_dispatch(family: QueueFamily) -> bool {
    is_superset(family.queue_flags, QUEUE_COMPUTE)
}

/// Whether `i` is the lowest index of a family that accepts dispatches.
pub open spec fn is_first_compute_family(families: Seq<QueueFamily>, i: int) -> bool {
    &&& 0 <= i < families.len()
    &&& accepts_dispatch(families[i])
    &&& forall|j: int| 0 <= j < i ==> !accepts_dispatch(#[trigger] families[j])
}

/// Whether some family accepts dispatches.
pub open spec fn any_compute_family(families: Seq<QueueFamily>) -> bool {
    exists|i: int| 0 <= i < families.len() && accepts_dispatch(#[trigger] families[i])
}

/// Tells whether a device has a queue family that accepts dispatches.
pub fn has_compute_queue(families: &Vec<QueueFamily>) -> (r: bool)
    ensures
        r == any_compute_family(families@),
{
    let mut i: usize = 0;
    while i < families.len()
        invariant
            i <= families@.len(),
            forall|j: int| 0 <= j < i ==> !accepts_dispatch(#[trigger] families@[j]),
        decreases families@.len() - i,
    {
        if contains(families[i].queue_flags, QUEUE_COMPUTE) {
            return true;
        }
        i += 1;
    }
    false
}

/// Finds the first queue family, in the driver's order, that accepts
/// dispatches. Fails exactly when none does.
pub fn get_first_compute_queue_family_index(families: &Vec<QueueFamily>) -> (r: Result<
    u32,
    SuitabilityError,
>)
    requires
        families@.len() <= u32::MAX,
    ensures
        match r {
            Ok(index) => is_first_compute_family(families@, index as int),
            Err(e) => e.0@ == no_compute_queue() && !any_compute_family(families@),
        },
{
    let mut i: usize = 0;
    while i < families.len()
        invariant
            families@.len() <= u32::MAX,
            i <= families@.len(),
            forall|j: int| 0 <= j < i ==> !accepts_dispatch(#[trigger] families@[j]),
        decreases families@.len() - i,
    {
        if contains(families[i].queue_flags, QUEUE_COMPUTE) {
            return Ok(i as u32);
        }
        i += 1;
    }
    Err(SuitabilityError("no suitable compute queue"))
}

impl DeviceDescriptor {
    /// Describes a device from its ids, its name and its queue families.
    pub fn new(vendor_id: u32, device_id: u32, name: String, families: &Vec<QueueFamily>) -> (d:
        DeviceDescriptor)
        ensures
            d.vendor_id == vendor_id,
            d.device_id == device_id,
            d.name == name,
            d.has_compute_queue == any_compute_family(families@),
    {
        DeviceDescriptor { vendor_id, device_id, name, has_compute_queue: has_compute_queue(families) }
    }
}

impl DeviceConfig {
    /// A device section with the two settings as given.
    pub fn new(first_device: bool, device_id: Option<u32>) -> (c: DeviceConfig)
        ensures
            c.first_device == first_device,
            c.device_id == device_id,
    {
        DeviceConfig { first_device, device_id }
    }

    /// The policy the settings select: the first device where that is asked
    /// for, else the given id, else none.
    pub open spec fn policy_spec(&self) -> Option<SelectionPolicy> {
        if self.first_device {
            Some(SelectionPolicy::FirstAvailable)
        } else {
            match self.device_id {
                Some(id) => Some(SelectionPolicy::SpecificId(id)),
                None => None,
            }
        }
    }

    /// The policy the settings select. Fails with a configuration error
    /// exactly when neither mode is specified.
    pub fn policy(&self) -> (r: Result<SelectionPolicy, Error>)
        ensures
            match r {
                Ok(policy) => self.policy_spec() == Some(policy),
                Err(e) => e is Configuration && self.policy_spec() is None,
            },
    {
        if self.first_device {
            Ok(SelectionPolicy::FirstAvailable)
        } else {
            match self.device_id {
                Some(id) => Ok(SelectionPolicy::SpecificId(id)),
                None => Err(Error::Configuration),
            }
        }
    }
}

/// Whether the policy takes this device: it must be compute-capable and,
/// where an id is asked for, have that id.
pub open spec fn accepts(policy: SelectionPolicy, device: DeviceDescriptor) -> bool {
    &&& device.has_compute_queue
    &&& match policy {
        SelectionPolicy::FirstAvailable => true,
        SelectionPolicy::SpecificId(id) => device.device_id == id,
    }
}

/// Whether `i` is the lowest index of a device that the policy takes.
pub open spec fn is_first_accepted(
    devices: Seq<DeviceDescriptor>,
    policy: SelectionPolicy,
    i: int,
) -> bool {
    &&& 0 <= i < devices.len()
    &&& accepts(policy, devices[i])
    &&& forall|j: int| 0 <= j < i ==> !accepts(policy, #[trigger] devices[j])
}

/// Whether the policy takes none of the devices.
pub open spec fn none_accepted(devices: Seq<DeviceDescriptor>, policy: SelectionPolicy) -> bool {
    forall|j: int| 0 <= j < devices.len() ==> !accepts(policy, #[trigger] devices[j])
}

/// Whether some device is compute-capable.
pub open spec fn any_compute_device(devices: Seq<DeviceDescriptor>) -> bool {
    exists|i: int| 0 <= i < devices.len() && (#[trigger] devices[i]).has_compute_queue
}

/// Whether `r` is what selection gives for these devices and settings.
///
/// With a policy, it is the first device the policy takes, or a suitability
/// error when it takes none. With neither mode specified, it is a
/// configuration error as soon as one device is compute-capable, and a
/// suitability error when none is.
pub open spec fn is_selection(
    devices: Seq<DeviceDescriptor>,
    config: DeviceConfig,
    r: Result<usize, Error>,
) -> bool {
    match config.policy_spec() {
        Some(policy) => match r {
            Ok(index) => is_first_accepted(devices, policy, index as int),
            Err(Error::Suitability(e)) => e.0@ == no_device() && none_accepted(devices, policy),
            Err(_) => false,
        },
        None => match r {
            Ok(_) => false,
            Err(Error::Configuration) => any_compute_device(devices),
            Err(Error::Suitability(e)) => e.0@ == no_device() && !any_compute_device(devices),
            Err(_) => false,
        },
    }
}

/// Picks one device: scans the devices in enumeration order, skips those
/// without a compute-capable queue family, and returns the index of the
/// first one the settings take.
pub fn pick_physical_device(devices: &Vec<DeviceDescriptor>, config: &DeviceConfig) -> (r: Result<
    usize,
    Error,
>)
    ensures
        is_selection(devices@, *config, r),
{
    let mut i: usize = 0;
    while i < devices.len()
        invariant
            i <= devices@.len(),
            !config.first_device && config.device_id is Some ==> forall|j: int|
                0 <= j < i ==> !accepts(
                    SelectionPolicy::SpecificId(config.device_id->Some_0),
                    #[trigger] devices@[j],
                ),
            config.first_device || config.device_id is None ==> forall|j: int|
                0 <= j < i ==> !(#[trigger] devices@[j]).has_compute_queue,
        decreases devices@.len() - i,
    {
        let device = &devices[i];
        if device.has_compute_queue {
            if config.first_device {
                return Ok(i);
            }
            match config.device_id {
                None => {
                    return Err(Error::Configuration);
                },
                Some(id) => {
                    if device.device_id == id {
                        return Ok(i);
                    }
                },
            }
        }
        i += 1;
    }
    Err(Error::Suitability(SuitabilityError("no suitable device")))
}

/// Whether the scan ends at this device: it is compute-capable, and the
/// settings take it or specify neither mode.
pub open spec fn ends_scan(config: DeviceConfig, device: DeviceDescriptor) -> bool {
    &&& device.has_compute_queue
    &&& match config.policy_spec() {
        Some(policy) => accepts(policy, device),
        None => true,
    }
}

/// Whether `count` is the number of candidates that selection examines:
/// the devices up to and including the first at which the scan ends, or all
/// of them where it ends at none.
pub open spec fn is_examined_count(
    devices: Seq<DeviceDescriptor>,
    config: DeviceConfig,
    count: int,
) -> bool {
    &&& 0 <= count <= devices.len()
    &&& forall|j: int| 0 <= j < count - 1 ==> !ends_scan(config, #[trigger] devices[j])
    &&& if count > 0 && ends_scan(config, devices[count - 1]) {
        true
    } else {
        count == devices.len() && (count > 0 ==> !ends_scan(config, devices[count - 1]))
    }
}

/// Counts the candidates that selection examines, in enumeration order.
/// These are the devices a diagnostic line is due for.
pub fn candidates_examined(devices: &Vec<DeviceDescriptor>, config: &DeviceConfig) -> (count: usize)
    ensures
        is_examined_count(devices@, *config, count as int),
{
    let mut i: usize = 0;
    while i < devices.len()
        invariant
            i <= devices@.len(),
            forall|j: int| 0 <= j < i ==> !ends_scan(*config, #[trigger] devices@[j]),
        decreases devices@.len() - i,
    {
        let device = &devices[i];
        if device.has_compute_queue {
            if config.first_device {
                return i + 1;
            }
            match config.device_id {
                None => {
                    return i + 1;
                },
                Some(id) => {
                    if device.device_id == id {
                        return i + 1;
                    }
                },
            }
        }
        i += 1;
    }
    i
}

/// Selection examines the candidates up to and including the one it
/// returns, and every candidate where it finds no suitable device.
pub proof fn lemma_examined_up_to_selection(
    devices: Seq<DeviceDescriptor>,
    config: DeviceConfig,
    r: Result<usize, Error>,
)
    requires
        is_selection(devices, config, r),
    ensures
        r matches Ok(index) ==> is_examined_count(devices, config, index + 1),
        r matches Err(Error::Suitability(_)) ==> is_examined_count(
            devices,
            config,
            devices.len() as int,
        ),
{
    match config.policy_spec() {
        Some(policy) => {},
        None => {
            if !any_compute_device(devices) {
                assert forall|j: int| 0 <= j < devices.len() implies !ends_scan(
                    config,
                    #[trigger] devices[j],
                ) by {
                    assert(!devices[j].has_compute_queue);
                }
            }
        },
    }
}

/// Whether two selection results are the same outcome: the same index, or
/// errors of the same kind with the same text.
pub open spec fn same_outcome(a: Result<usize, Error>, b: Result<usize, Error>) -> bool {
    match (a, b) {
        (Ok(i), Ok(j)) => i == j,
        (Err(e), Err(f)) => e.same_as(f),
        _ => false,
    }
}

/// Selection is determined by the enumeration order and the settings: any
/// two results of selecting from the same devices with the same settings
/// are the same outcome.
pub proof fn lemma_selection_deterministic(
    devices: Seq<DeviceDescriptor>,
    config: DeviceConfig,
    first: Result<usize, Error>,
    second: Result<usize, Error>,
)
    requires
        is_selection(devices, config, first),
        is_selection(devices, config, second),
    ensures
        same_outcome(first, second),
{
    match config.policy_spec() {
        Some(policy) => {
            if let Ok(i) = first {
                if let Ok(j) = second {
                    assert(accepts(policy, devices[i as int]));
                    assert(accepts(policy, devices[j as int]));
                    assert(i == j);
                }
            }
        },
        None => {},
    }
}

/// The device that selection returns is compute-capable and lies within the
/// enumeration, and where the settings name an id it has that id.
pub proof fn lemma_selected_device_is_suitable(
    devices: Seq<DeviceDescriptor>,
    config: DeviceConfig,
    index: usize,
)
    requires
        is_selection(devices, config, Ok(index)),
    ensures
        0 <= index < devices.len(),
        devices[index as int].has_compute_queue,
        !config.first_device ==> config.device_id == Some(devices[index as int].device_id),
{
}

} // verus!

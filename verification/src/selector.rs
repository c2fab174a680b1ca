//! Physical-device selection.
//!
//! The driver enumerates physical devices in a fixed order; for each device
//! the application layer queries its queue-family descriptors and, per
//! family, whether the family can present to the target surface.  Selection
//! scans the enumeration once and picks the first device that offers both a
//! graphics-capable and a present-capable family — no scoring, no
//! preference for discrete GPUs; preserving this order-sensitivity is a
//! compatibility requirement.

use vstd::prelude::*;

use crate::error::Error;

verus! {

/// The queue-capability bit that marks a family as graphics-capable.
pub const QUEUE_GRAPHICS_BIT: u32 = 1;

/// One queue-family descriptor, as queried from the driver.  The family's
/// index is its position in the device's descriptor list.
#[derive(Clone, Copy, Debug, PartialEq, Eq, Structural)]
pub struct QueueFamilyDesc {
    /// Capability bitmask; `QUEUE_GRAPHICS_BIT` marks graphics support.
    pub flags: u32,
    /// How many queues the family offers.
    pub queue_count: u32,
    /// Whether the surface layer reports present support for this family
    /// on the target surface.
    pub present_support: bool,
}

/// One enumerated physical device: its queue-family descriptor list,
/// borrowed from the driver's enumeration.
#[derive(Clone, Debug)]
pub struct PhysicalDeviceCandidate {
    /// The device's queue families, in driver order.
    pub families: Vec<QueueFamilyDesc>,
    /// False when the device was reachable but its queue families (or
    /// their surface support) could not be queried.
    pub families_queried: bool,
}

/// The resolved pair of queue-family indices the pipeline will use.  The
/// two roles may resolve to the same family; a single queue is then shared.
#[derive(Clone, Copy, Debug, PartialEq, Eq, Structural)]
pub struct QueueFamilyAssignment {
    /// Index of the graphics-capable family.
    pub graphics_family: u32,
    /// Index of the present-capable family.
    pub present_family: u32,
}

/// Whether a family's capability flags include graphics support.
pub open spec fn family_supports_graphics(f: QueueFamilyDesc) -> bool {
    f.flags & QUEUE_GRAPHICS_BIT != 0
}

/// Index of the first graphics-capable family at or after position `i`.
pub open spec fn first_graphics_from(fams: Seq<QueueFamilyDesc>, i: int) -> Option<int>
    decreases fams.len() - i,
{
    if i < 0 || i >= fams.len() {
        None
    } else if family_supports_graphics(fams[i]) {
        Some(i)
    } else {
        first_graphics_from(fams, i + 1)
    }
}

/// Index of the first graphics-capable family of the list.
pub open spec fn first_graphics_family(fams: Seq<QueueFamilyDesc>) -> Option<int> {
    first_graphics_from(fams, 0)
}

/// Index of the first present-capable family at or after position `i`.
pub open spec fn first_present_from(fams: Seq<QueueFamilyDesc>, i: int) -> Option<int>
    decreases fams.len() - i,
{
    if i < 0 || i >= fams.len() {
        None
    } else if fams[i].present_support {
        Some(i)
    } else {
        first_present_from(fams, i + 1)
    }
}

/// Index of the first present-capable family of the list.
pub open spec fn first_present_family(fams: Seq<QueueFamilyDesc>) -> Option<int> {
    first_present_from(fams, 0)
}

/// A device qualifies when both scans of its family list succeed.
pub open spec fn device_qualifies(d: PhysicalDeviceCandidate) -> bool {
    &&& d.families_queried
    &&& first_graphics_family(d.families@) is Some
    &&& first_present_family(d.families@) is Some
}

/// The assignment that selection derives from a qualifying device.
pub open spec fn spec_assignment_of(d: PhysicalDeviceCandidate) -> QueueFamilyAssignment
    recommends
        device_qualifies(d),
{
    QueueFamilyAssignment {
        graphics_family: first_graphics_family(d.families@)->Some_0 as u32,
        present_family: first_present_family(d.families@)->Some_0 as u32,
    }
}

/// The outcome of scanning the enumeration from position `i` on: the first
/// qualifying device and its assignment, or the error that ends the scan.
pub open spec fn spec_select_from(
    devices: Seq<PhysicalDeviceCandidate>,
    i: int,
) -> Result<(int, QueueFamilyAssignment), Error>
    decreases devices.len() - i,
{
    if i < 0 || i >= devices.len() {
        Err(Error::NoSuitablePhysicalDevice)
    } else if !devices[i].families_queried {
        Err(Error::NoSuitableQueueFamily)
    } else if device_qualifies(devices[i]) {
        Ok((i, spec_assignment_of(devices[i])))
    } else {
        spec_select_from(devices, i + 1)
    }
}

/// The outcome of scanning the whole enumeration.
pub open spec fn spec_select(
    devices: Seq<PhysicalDeviceCandidate>,
) -> Result<(int, QueueFamilyAssignment), Error> {
    spec_select_from(devices, 0)
}

/// Finds the first graphics-capable family of a device's list.
fn find_graphics_family(fams: &Vec<QueueFamilyDesc>) -> (r: Option<u32>)
    requires
        fams@.len() <= u32::MAX,
    ensures
        match r {
            Some(i) => first_graphics_family(fams@) == Some(i as int),
            None => first_graphics_family(fams@) is None,
        },
{
    let n = fams.len();
    for i in 0..n
        invariant
            n == fams@.len() <= u32::MAX,
            first_graphics_family(fams@) == first_graphics_from(fams@, i as int),
    {
        if fams[i].flags & QUEUE_GRAPHICS_BIT != 0 {
            return Some(i as u32);
        }
    }
    None
}

/// Finds the first present-capable family of a device's list.
fn find_present_family(fams: &Vec<QueueFamilyDesc>) -> (r: Option<u32>)
    requires
        fams@.len() <= u32::MAX,
    ensures
        match r {
            Some(i) => first_present_family(fams@) == Some(i as int),
            None => first_present_family(fams@) is None,
        },
{
    let n = fams.len();
    for i in 0..n
        invariant
            n == fams@.len() <= u32::MAX,
            first_present_family(fams@) == first_present_from(fams@, i as int),
    {
        if fams[i].present_support {
            return Some(i as u32);
        }
    }
    None
}

/// Scans the enumerated devices in driver order and selects the first one
/// that offers both a graphics-capable and a present-capable queue family,
/// together with the family-index assignment derived from it.
///
/// Returns `NoSuitableQueueFamily` when the scan reaches a device whose
/// queue families could not be enumerated, and `NoSuitablePhysicalDevice`
/// when the scan exhausts the list without a qualifying device.
pub fn select_physical_device(
    devices: &Vec<PhysicalDeviceCandidate>,
) -> (r: Result<(usize, QueueFamilyAssignment), Error>)
    requires
        forall|i: int|
            0 <= i < devices@.len() ==> #[trigger] devices@[i].families@.len() <= u32::MAX,
    ensures
        match r {
            Ok((i, a)) => spec_select(devices@) == Ok::<(int, QueueFamilyAssignment), Error>((
                i as int,
                a,
            )),
            Err(e) => spec_select(devices@) == Err::<(int, QueueFamilyAssignment), Error>(e),
        },
{
    let n = devices.len();
    for i in 0..n
        invariant
            n == devices@.len(),
            forall|k: int|
                0 <= k < devices@.len() ==> #[trigger] devices@[k].families@.len() <= u32::MAX,
            spec_select(devices@) == spec_select_from(devices@, i as int),
    {
        let d = &devices[i];
        if !d.families_queried {
            return Err(Error::NoSuitableQueueFamily);
        }
        let graphics = find_graphics_family(&d.families);
        let present = find_present_family(&d.families);
        match (graphics, present) {
            (Some(g), Some(p)) => {
                return Ok((i, QueueFamilyAssignment { graphics_family: g, present_family: p }));
            },
            _ => {},
        }
    }
    Err(Error::NoSuitablePhysicalDevice)
}

/// Selection returns the first qualifying device in enumeration order: the
/// selected device qualifies, every earlier device was queried and does not
/// qualify, and the assignment holds the first graphics-capable and first
/// present-capable family indices of the selected device.
pub proof fn lemma_select_picks_first_qualifying(
    devices: Seq<PhysicalDeviceCandidate>,
    i: int,
    a: QueueFamilyAssignment,
)
    requires
        spec_select(devices) == Ok::<(int, QueueFamilyAssignment), Error>((i, a)),
    ensures
        0 <= i < devices.len(),
        device_qualifies(devices[i]),
        forall|j: int|
            0 <= j < i ==> #[trigger] devices[j].families_queried && !device_qualifies(devices[j]),
        a == spec_assignment_of(devices[i]),
{
    lemma_select_from_picks_first_qualifying(devices, 0, i, a);
}

proof fn lemma_select_from_picks_first_qualifying(
    devices: Seq<PhysicalDeviceCandidate>,
    start: int,
    i: int,
    a: QueueFamilyAssignment,
)
    requires
        0 <= start,
        spec_select_from(devices, start) == Ok::<(int, QueueFamilyAssignment), Error>((i, a)),
    ensures
        start <= i < devices.len(),
        device_qualifies(devices[i]),
        forall|j: int|
            start <= j < i ==> #[trigger] devices[j].families_queried && !device_qualifies(
                devices[j],
            ),
        a == spec_assignment_of(devices[i]),
    decreases devices.len() - start,
{
    if start < devices.len() && devices[start].families_queried && !device_qualifies(
        devices[start],
    ) {
        lemma_select_from_picks_first_qualifying(devices, start + 1, i, a);
    }
}

/// When every enumerated device was queried and none offers both
/// capabilities, selection fails with `NoSuitablePhysicalDevice`.
pub proof fn lemma_select_fails_without_capable_device(devices: Seq<PhysicalDeviceCandidate>)
    requires
        forall|j: int|
            0 <= j < devices.len() ==> #[trigger] devices[j].families_queried
                && !device_qualifies(devices[j]),
    ensures
        spec_select(devices) == Err::<(int, QueueFamilyAssignment), Error>(
            Error::NoSuitablePhysicalDevice,
        ),
{
    lemma_select_from_fails_without_capable_device(devices, 0);
}

proof fn lemma_select_from_fails_without_capable_device(
    devices: Seq<PhysicalDeviceCandidate>,
    start: int,
)
    requires
        0 <= start,
        forall|j: int|
            0 <= j < devices.len() ==> #[trigger] devices[j].families_queried
                && !device_qualifies(devices[j]),
    ensures
        spec_select_from(devices, start) == Err::<(int, QueueFamilyAssignment), Error>(
            Error::NoSuitablePhysicalDevice,
        ),
    decreases devices.len() - start,
{
    if start < devices.len() {
        lemma_select_from_fails_without_capable_device(devices, start + 1);
    }
}

} // verus!

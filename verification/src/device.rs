//! Logical-device creation planning and completion.
//!
//! From the queue-family assignment the builder derives a de-duplicated
//! list of queue requests — one queue per family, all with equal priority —
//! together with the device extensions to enable, which must include the
//! swapchain extension since presentation is otherwise impossible.  The
//! application layer performs the creation call and the per-family queue
//! retrieval; completion turns their results into the owned device context
//! or into the exact error the stage owes.

use vstd::prelude::*;

use crate::error::Error;
use crate::selector::QueueFamilyAssignment;

verus! {

/// The name of the device extension that presentation requires.
pub open spec fn swapchain_extension_name() -> Seq<char> {
    "VK_KHR_swapchain"@
}

/// Whether an extension list names the swapchain extension.
pub open spec fn includes_swapchain_extension(exts: Seq<String>) -> bool {
    exists|i: int| 0 <= i < exts.len() && #[trigger] exts[i]@ == swapchain_extension_name()
}

/// Whether a list of available extension names has one equal to `name`.
pub open spec fn extension_list_has(available: Seq<String>, name: Seq<char>) -> bool {
    exists|j: int| 0 <= j < available.len() && #[trigger] available[j]@ == name
}

/// Whether every required extension name appears among the available ones.
pub open spec fn all_extensions_present(required: Seq<String>, available: Seq<String>) -> bool {
    forall|i: int| 0 <= i < required.len() ==> extension_list_has(available, #[trigger] required[i]@)
}

/// The de-duplicated queue families a device creation requests: the
/// graphics family alone when the two roles coincide, else the graphics
/// family followed by the present family.
pub open spec fn spec_requested_families(assignment: QueueFamilyAssignment) -> Seq<u32> {
    if assignment.graphics_family == assignment.present_family {
        seq![assignment.graphics_family]
    } else {
        seq![assignment.graphics_family, assignment.present_family]
    }
}

/// One queue request handed to device creation.  Every request asks for
/// exactly one queue; all requests carry the same unit priority, which the
/// application layer supplies to the driver verbatim.
#[derive(Clone, Copy, Debug, PartialEq, Eq, Structural)]
pub struct DeviceQueueRequest {
    /// The queue family the request draws from.
    pub family_index: u32,
    /// How many queues to create in that family.
    pub queue_count: u32,
}

/// Everything a device-creation call needs: the de-duplicated queue
/// requests and the extensions to enable.
#[derive(Clone, Debug)]
pub struct DeviceCreationPlan {
    /// One request per distinct queue family of the assignment.
    pub queue_requests: Vec<DeviceQueueRequest>,
    /// The device extensions to enable.
    pub extensions: Vec<String>,
}

/// The created logical device: its handle and the queue handles assigned
/// to the graphics and present roles.
#[derive(Clone, Copy, Debug, PartialEq, Eq, Structural)]
pub struct LogicalDeviceContext {
    /// The logical-device handle.
    pub device: u64,
    /// The queue handle serving the graphics role.
    pub graphics_queue: u64,
    /// The queue handle serving the present role.
    pub present_queue: u64,
    /// The assignment the queues were retrieved for.
    pub assignment: QueueFamilyAssignment,
}

/// Reports whether an extension list names the swapchain extension.
pub fn has_swapchain_extension(extensions: &Vec<String>) -> (r: bool)
    ensures
        r == includes_swapchain_extension(extensions@),
{
    let target: String = "VK_KHR_swapchain".to_owned();
    let n = extensions.len();
    for i in 0..n
        invariant
            n == extensions@.len(),
            target@ == swapchain_extension_name(),
            forall|j: int| 0 <= j < i ==> #[trigger] extensions@[j]@ != swapchain_extension_name(),
    {
        if extensions[i] == target {
            return true;
        }
    }
    false
}

/// Reports whether a list of available extension names has one equal to
/// `name`.
fn extension_list_contains(available: &Vec<String>, name: &String) -> (r: bool)
    ensures
        r == extension_list_has(available@, name@),
{
    let n = available.len();
    for j in 0..n
        invariant
            n == available@.len(),
            forall|k: int| 0 <= k < j ==> #[trigger] available@[k]@ != name@,
    {
        if available[j] == *name {
            return true;
        }
    }
    false
}

/// Reports whether the selected device supports every required extension.
///
/// Selection deliberately does not verify extension support, so a caller
/// checks it explicitly — against the device's queried extension list —
/// before requesting device creation, rather than assuming it.
pub fn extensions_supported(required: &Vec<String>, available: &Vec<String>) -> (r: bool)
    ensures
        r == all_extensions_present(required@, available@),
{
    let n = required.len();
    for i in 0..n
        invariant
            n == required@.len(),
            forall|k: int|
                0 <= k < i ==> extension_list_has(available@, #[trigger] required@[k]@),
    {
        if !extension_list_contains(available, &required[i]) {
            return false;
        }
    }
    true
}

/// Builds the device-creation plan for an assignment: one request per
/// distinct queue family — a single request when the graphics and present
/// roles share a family — each asking for exactly one queue, plus the
/// required extensions, which must include the swapchain extension.
pub fn plan_device_creation(
    assignment: QueueFamilyAssignment,
    required_extensions: Vec<String>,
) -> (r: DeviceCreationPlan)
    requires
        includes_swapchain_extension(required_extensions@),
    ensures
        r.queue_requests@.len() == spec_requested_families(assignment).len(),
        forall|i: int|
            0 <= i < r.queue_requests@.len() ==> #[trigger] r.queue_requests@[i]
                == (DeviceQueueRequest {
                family_index: spec_requested_families(assignment)[i],
                queue_count: 1,
            }),
        r.extensions == required_extensions,
{
    let mut queue_requests: Vec<DeviceQueueRequest> = Vec::new();
    queue_requests.push(
        DeviceQueueRequest { family_index: assignment.graphics_family, queue_count: 1 },
    );
    if assignment.present_family != assignment.graphics_family {
        queue_requests.push(
            DeviceQueueRequest { family_index: assignment.present_family, queue_count: 1 },
        );
    }
    DeviceCreationPlan { queue_requests, extensions: required_extensions }
}

/// Whether every requested family yielded a queue handle.
pub open spec fn all_queues_retrieved(queue_handles: Seq<Option<u64>>) -> bool {
    forall|i: int| 0 <= i < queue_handles.len() ==> #[trigger] queue_handles[i] is Some
}

/// Completes the device stage from the driver's answers: `created` is the
/// creation result, and `queue_handles` holds one retrieved handle per
/// requested family, in the order of `spec_requested_families`.
///
/// A creation error is wrapped as `DeviceCreationFailed`; a missing queue
/// handle is `QueueRetrievalFailed` (a driver contract violation).  On
/// success the graphics role takes the first family's handle and the
/// present role the handle of its own family — the same handle when the
/// two roles share a family.
pub fn complete_device(
    assignment: QueueFamilyAssignment,
    created: Result<u64, i32>,
    queue_handles: &Vec<Option<u64>>,
) -> (r: Result<LogicalDeviceContext, Error>)
    requires
        queue_handles@.len() == spec_requested_families(assignment).len(),
    ensures
        created matches Err(c) ==> r == Err::<LogicalDeviceContext, Error>(
            Error::DeviceCreationFailed(c),
        ),
        created is Ok && !all_queues_retrieved(queue_handles@) ==> r == Err::<
            LogicalDeviceContext,
            Error,
        >(Error::QueueRetrievalFailed),
        created matches Ok(d) ==> all_queues_retrieved(queue_handles@) ==> (r matches Ok(ctx) && {
            &&& ctx.device == d
            &&& ctx.assignment == assignment
            &&& ctx.graphics_queue == queue_handles@[0]->Some_0
            &&& ctx.present_queue == (if assignment.graphics_family == assignment.present_family {
                queue_handles@[0]->Some_0
            } else {
                queue_handles@[1]->Some_0
            })
        }),
        r is Ok && assignment.graphics_family == assignment.present_family ==> r->Ok_0
            .graphics_queue == r->Ok_0.present_queue,
{
    let device = match created {
        Ok(d) => d,
        Err(c) => { return Err(Error::DeviceCreationFailed(c)) },
    };
    let graphics_queue = match queue_handles[0] {
        Some(q) => q,
        None => { return Err(Error::QueueRetrievalFailed) },
    };
    let present_queue = if assignment.graphics_family == assignment.present_family {
        graphics_queue
    } else {
        match queue_handles[1] {
            Some(q) => q,
            None => { return Err(Error::QueueRetrievalFailed) },
        }
    };
    Ok(LogicalDeviceContext { device, graphics_queue, present_queue, assignment })
}

} // verus!

//! The staged bootstrap pipeline and its teardown discipline.
//!
//! Control flow is strictly linear: instance, surface, device selection,
//! logical device and queues, swapchain negotiation, image views.  Each
//! stage consumes the previous stage's result and may fail terminally;
//! failure is absorbing — there is no retry transition, and a failed run
//! must tear down whatever it created, in strict reverse-creation order,
//! before the error reaches the caller.
//!
//! The driver itself is outside the library: its answers enter as plain
//! values.  A [`DriverFixture`] scripts one answer per call the pipeline
//! makes, in call order, so a whole run is a pure function of the script.

use vstd::prelude::*;

use crate::device::LogicalDeviceContext;
use crate::device::all_queues_retrieved;
use crate::device::complete_device;
use crate::device::spec_requested_families;
use crate::error::Error;
use crate::image_views::collect_image_views;
use crate::image_views::first_view_error;
use crate::image_views::view_handles_prefix;
use crate::selector::PhysicalDeviceCandidate;
use crate::selector::QueueFamilyAssignment;
use crate::selector::select_physical_device;
use crate::selector::spec_select;
use crate::swapchain::SurfaceCapabilitySet;
use crate::swapchain::SwapchainContext;
use crate::swapchain::caps_compatible;
use crate::swapchain::complete_swapchain;
use crate::swapchain::negotiate;
use crate::swapchain::spec_choose_format;
use crate::swapchain::spec_choose_present_mode;
use crate::swapchain::spec_image_count;
use crate::swapchain::SharingMode;
use crate::swapchain::negotiated_sharing;

verus! {

/// A destroy call the application layer must make against the driver.
#[derive(Clone, Copy, Debug, PartialEq, Eq, Structural)]
pub enum DriverOp {
    /// Destroy one image view.
    DestroyImageView(u64),
    /// Destroy the swapchain.
    DestroySwapchain(u64),
    /// Destroy the logical device.
    DestroyDevice(u64),
    /// Destroy the surface.
    DestroySurface(u64),
    /// Destroy the instance.
    DestroyInstance(u64),
}

/// The handles a pipeline run has created and not yet destroyed, in
/// creation order: instance, surface, device, swapchain, then views.
#[derive(Clone, Debug)]
pub struct Ledger {
    /// The instance handle, once created.
    pub instance: Option<u64>,
    /// The surface handle, once created.
    pub surface: Option<u64>,
    /// The logical-device handle, once created.
    pub device: Option<u64>,
    /// The swapchain handle, once created.
    pub swapchain: Option<u64>,
    /// The image-view handles, in creation order.
    pub image_views: Vec<u64>,
}

impl Ledger {
    /// An empty ledger: nothing created, nothing to destroy.
    pub fn new() -> (l: Ledger)
        ensures
            l.instance is None,
            l.surface is None,
            l.device is None,
            l.swapchain is None,
            l.image_views@ == Seq::<u64>::empty(),
    {
        Ledger {
            instance: None,
            surface: None,
            device: None,
            swapchain: None,
            image_views: Vec::new(),
        }
    }
}

/// The destroy ops for the views of a ledger, newest first.
pub open spec fn reversed_view_ops(image_views: Seq<u64>) -> Seq<DriverOp> {
    Seq::new(image_views.len(), |i: int| DriverOp::DestroyImageView(
        image_views[image_views.len() - 1 - i],
    ))
}

/// Zero or one destroy ops for an optional handle.
pub open spec fn opt_ops(o: Option<u64>, make: spec_fn(u64) -> DriverOp) -> Seq<DriverOp> {
    match o {
        Some(h) => seq![make(h)],
        None => Seq::empty(),
    }
}

/// The full teardown plan of a ledger: every live handle destroyed exactly
/// once, in strict reverse-creation order — views newest first, then the
/// swapchain, the device, the surface, and the instance last.
pub open spec fn spec_teardown_ops(l: Ledger) -> Seq<DriverOp> {
    reversed_view_ops(l.image_views@) + opt_ops(l.swapchain, |h: u64| DriverOp::DestroySwapchain(h))
        + opt_ops(l.device, |h: u64| DriverOp::DestroyDevice(h)) + opt_ops(
        l.surface,
        |h: u64| DriverOp::DestroySurface(h),
    ) + opt_ops(l.instance, |h: u64| DriverOp::DestroyInstance(h))
}

/// One when the handle is live, zero when it is not.
pub open spec fn opt_count(o: Option<u64>) -> int {
    if o is Some {
        1
    } else {
        0
    }
}

/// How many handles a ledger holds live.
pub open spec fn live_count(l: Ledger) -> int {
    l.image_views@.len() + opt_count(l.swapchain) + opt_count(l.device) + opt_count(l.surface)
        + opt_count(l.instance)
}

/// Builds the teardown plan of a ledger.
pub fn teardown_plan(ledger: &Ledger) -> (ops: Vec<DriverOp>)
    ensures
        ops@ == spec_teardown_ops(*ledger),
{
    let mut ops: Vec<DriverOp> = Vec::new();
    let n = ledger.image_views.len();
    for i in 0..n
        invariant
            n == ledger.image_views@.len(),
            ops@.len() == i,
            forall|j: int|
                0 <= j < i ==> #[trigger] ops@[j] == DriverOp::DestroyImageView(
                    ledger.image_views@[n - 1 - j],
                ),
    {
        ops.push(DriverOp::DestroyImageView(ledger.image_views[n - 1 - i]));
    }
    assert(ops@ =~= reversed_view_ops(ledger.image_views@));
    if let Some(h) = ledger.swapchain {
        ops.push(DriverOp::DestroySwapchain(h));
    }
    if let Some(h) = ledger.device {
        ops.push(DriverOp::DestroyDevice(h));
    }
    if let Some(h) = ledger.surface {
        ops.push(DriverOp::DestroySurface(h));
    }
    if let Some(h) = ledger.instance {
        ops.push(DriverOp::DestroyInstance(h));
    }
    assert(ops@ =~= spec_teardown_ops(*ledger));
    ops
}

/// Teardown leaks nothing and observes reverse-creation order: the plan is
/// exactly as long as the ledger's live count, destroys each created view
/// once — newest first — and then the swapchain, the device, the surface,
/// and the instance, each exactly when it is live.
pub proof fn lemma_teardown_no_leaks(l: Ledger)
    ensures
        spec_teardown_ops(l).len() == live_count(l),
        forall|i: int|
            0 <= i < l.image_views@.len() ==> #[trigger] spec_teardown_ops(l)[i]
                == DriverOp::DestroyImageView(l.image_views@[l.image_views@.len() - 1 - i]),
        l.swapchain matches Some(h) ==> spec_teardown_ops(l)[l.image_views@.len() as int]
            == DriverOp::DestroySwapchain(h),
        l.device matches Some(h) ==> spec_teardown_ops(l)[l.image_views@.len() + opt_count(
            l.swapchain,
        )] == DriverOp::DestroyDevice(h),
        l.surface matches Some(h) ==> spec_teardown_ops(l)[l.image_views@.len() + opt_count(
            l.swapchain,
        ) + opt_count(l.device)] == DriverOp::DestroySurface(h),
        l.instance matches Some(h) ==> spec_teardown_ops(l)[l.image_views@.len() + opt_count(
            l.swapchain,
        ) + opt_count(l.device) + opt_count(l.surface)] == DriverOp::DestroyInstance(h),
{
}

/// The driver's scripted answers, one per call the pipeline makes, in call
/// order.  A fixture stands for the driver in tests and proofs; the
/// application layer produces the same values from real calls.
#[derive(Debug)]
pub struct DriverFixture {
    /// Result of instance creation.
    pub instance: Result<u64, i32>,
    /// Result of turning the window handle into a surface.
    pub surface: Result<u64, i32>,
    /// The enumerated physical devices, in driver order.
    pub devices: Vec<PhysicalDeviceCandidate>,
    /// Result of logical-device creation for the selected device.
    pub device: Result<u64, i32>,
    /// The queue handle retrieved for the graphics family.
    pub graphics_queue: Option<u64>,
    /// The queue handle retrieved for the present family; ignored when the
    /// two roles share a family, since a single handle is then reused.
    pub present_queue: Option<u64>,
    /// The capability snapshot for the selected device and the surface.
    pub capabilities: SurfaceCapabilitySet,
    /// Result of swapchain creation.
    pub swapchain: Result<u64, i32>,
    /// The images the created swapchain hands back, in order.
    pub images: Vec<u64>,
    /// Result of each image-view creation, one per image, in image order.
    pub image_views: Vec<Result<u64, i32>>,
}

impl DriverFixture {
    /// Shape constraints a meaningful script satisfies: family lists and
    /// image counts fit the driver's index types, and the script answers
    /// one view creation per image.
    pub open spec fn wf(&self) -> bool {
        &&& forall|i: int|
            0 <= i < self.devices@.len() ==> #[trigger] self.devices@[i].families@.len()
                <= u32::MAX
        &&& self.capabilities.min_image_count < u32::MAX
        &&& self.image_views@.len() == self.images@.len()
    }
}

/// The instance stage succeeds.
pub open spec fn instance_ok(d: DriverFixture) -> bool {
    d.instance is Ok
}

/// The pipeline reaches and passes surface creation.
pub open spec fn surface_ok(d: DriverFixture) -> bool {
    instance_ok(d) && d.surface is Ok
}

/// The pipeline reaches and passes device selection.
pub open spec fn selection_ok(d: DriverFixture) -> bool {
    surface_ok(d) && spec_select(d.devices@) is Ok
}

/// The assignment selection derives, once it succeeds.
pub open spec fn spec_assignment(d: DriverFixture) -> QueueFamilyAssignment
    recommends
        spec_select(d.devices@) is Ok,
{
    spec_select(d.devices@)->Ok_0.1
}

/// The pipeline reaches and passes logical-device creation.
pub open spec fn device_ok(d: DriverFixture) -> bool {
    selection_ok(d) && d.device is Ok
}

/// The pipeline reaches queue retrieval and every requested family yields
/// a handle.
pub open spec fn queues_ok(d: DriverFixture) -> bool {
    &&& device_ok(d)
    &&& d.graphics_queue is Some
    &&& (spec_assignment(d).graphics_family == spec_assignment(d).present_family
        || d.present_queue is Some)
}

/// The pipeline reaches negotiation and the capability snapshot can host a
/// swapchain.
pub open spec fn negotiation_ok(d: DriverFixture) -> bool {
    queues_ok(d) && caps_compatible(d.capabilities)
}

/// The pipeline reaches and passes swapchain creation.
pub open spec fn swapchain_ok(d: DriverFixture) -> bool {
    negotiation_ok(d) && d.swapchain is Ok
}

/// The whole run succeeds: every stage passes and every view is created.
pub open spec fn boot_succeeds(d: DriverFixture) -> bool {
    swapchain_ok(d) && first_view_error(d.image_views@) is None
}

/// The error a run against the script ends in, or `None` when it reaches
/// `Ready`.  The first failing stage decides, in stage order.
pub open spec fn spec_boot_error(d: DriverFixture) -> Option<Error> {
    match d.instance {
        Err(c) => Some(Error::InstanceCreationFailed(c)),
        Ok(_) => match d.surface {
            Err(c) => Some(Error::SurfaceCreationFailed(c)),
            Ok(_) => match spec_select(d.devices@) {
                Err(e) => Some(e),
                Ok(_) => match d.device {
                    Err(c) => Some(Error::DeviceCreationFailed(c)),
                    Ok(_) => if !queues_ok(d) {
                        Some(Error::QueueRetrievalFailed)
                    } else if !caps_compatible(d.capabilities) {
                        Some(Error::SurfaceIncompatible)
                    } else {
                        match d.swapchain {
                            Err(c) => Some(Error::SwapchainCreationFailed(c)),
                            Ok(_) => match first_view_error(d.image_views@) {
                                Some(k) => Some(
                                    Error::ImageViewCreationFailed(d.image_views@[k]->Err_0),
                                ),
                                None => None,
                            },
                        }
                    },
                },
            },
        },
    }
}

/// The views a run creates before it ends: all of them on success, the
/// prefix before the first failure otherwise, and none at all when the run
/// fails before the view stage.
pub open spec fn spec_created_views(d: DriverFixture) -> Seq<u64> {
    if !swapchain_ok(d) {
        Seq::empty()
    } else {
        match first_view_error(d.image_views@) {
            Some(k) => view_handles_prefix(d.image_views@, k),
            None => view_handles_prefix(d.image_views@, d.image_views@.len() as int),
        }
    }
}

/// The teardown plan a failed run owes: exactly what it created, newest
/// first.
pub open spec fn spec_failure_teardown_ops(d: DriverFixture) -> Seq<DriverOp> {
    reversed_view_ops(spec_created_views(d)) + opt_ops(
        if swapchain_ok(d) {
            Some(d.swapchain->Ok_0)
        } else {
            None
        },
        |h: u64| DriverOp::DestroySwapchain(h),
    ) + opt_ops(
        if device_ok(d) {
            Some(d.device->Ok_0)
        } else {
            None
        },
        |h: u64| DriverOp::DestroyDevice(h),
    ) + opt_ops(
        if surface_ok(d) {
            Some(d.surface->Ok_0)
        } else {
            None
        },
        |h: u64| DriverOp::DestroySurface(h),
    ) + opt_ops(
        if instance_ok(d) {
            Some(d.instance->Ok_0)
        } else {
            None
        },
        |h: u64| DriverOp::DestroyInstance(h),
    )
}

/// A failed run leaks nothing: counting destroy calls against create calls
/// balances exactly, one destroy per view the run created plus one for
/// each of the swapchain, device, surface and instance stages it passed.
pub proof fn lemma_failed_boot_leaks_nothing(d: DriverFixture)
    ensures
        spec_failure_teardown_ops(d).len() == spec_created_views(d).len() + (if swapchain_ok(d) {
            1int
        } else {
            0int
        }) + (if device_ok(d) {
            1int
        } else {
            0int
        }) + (if surface_ok(d) {
            1int
        } else {
            0int
        }) + (if instance_ok(d) {
            1int
        } else {
            0int
        }),
{
}

/// The ready rendering context: everything the frame layer consumes.
#[derive(Clone, Debug)]
pub struct Render {
    /// The instance handle.
    pub instance: u64,
    /// The surface handle.
    pub surface: u64,
    /// Which enumerated physical device was selected.
    pub physical_device_index: usize,
    /// The logical device and its queue handles.
    pub device: LogicalDeviceContext,
    /// The created swapchain, its configuration, and its images.
    pub swapchain: SwapchainContext,
    /// One view per swapchain image, in image order.
    pub image_views: Vec<u64>,
}

/// What a ready rendering context owes to the script it was built from:
/// every handle and every negotiated choice is pinned.
pub open spec fn render_matches(r: Render, d: DriverFixture) -> bool {
    &&& r.instance == d.instance->Ok_0
    &&& r.surface == d.surface->Ok_0
    &&& r.physical_device_index == spec_select(d.devices@)->Ok_0.0
    &&& r.device.device == d.device->Ok_0
    &&& r.device.assignment == spec_assignment(d)
    &&& r.device.graphics_queue == d.graphics_queue->Some_0
    &&& r.device.present_queue == (if spec_assignment(d).graphics_family == spec_assignment(
        d,
    ).present_family {
        d.graphics_queue->Some_0
    } else {
        d.present_queue->Some_0
    })
    &&& r.swapchain.swapchain == d.swapchain->Ok_0
    &&& r.swapchain.config.format == spec_choose_format(d.capabilities.formats@)
    &&& r.swapchain.config.present_mode == spec_choose_present_mode(d.capabilities.present_modes@)
    &&& r.swapchain.config.image_count == spec_image_count(
        d.capabilities.min_image_count as int,
        d.capabilities.max_image_count as int,
    )
    &&& r.swapchain.config.extent == d.capabilities.current_extent
    &&& r.swapchain.config.pre_transform == d.capabilities.current_transform
    &&& negotiated_sharing(r.swapchain.config, spec_assignment(d))
    &&& r.swapchain.images@ == d.images@
    &&& r.image_views@ == view_handles_prefix(d.image_views@, d.image_views@.len() as int)
    &&& r.image_views@.len() == d.image_views@.len()
}

/// The pipeline's stage, as the caller observes it.  `Failed` is absorbing:
/// there is no retry transition, and a caller that wants to try again must
/// restart from `Uninitialized`.
#[derive(Clone, Copy, Debug, PartialEq, Eq, Structural)]
pub enum PipelineStage {
    /// Nothing created yet.
    Uninitialized,
    /// Instance (and surface) established.
    InstanceReady,
    /// Logical device and queues established.
    DeviceReady,
    /// Swapchain established.
    SwapchainReady,
    /// Image views established; the context is complete.
    Ready,
    /// A stage failed terminally, with its reason.
    Failed(Error),
}

/// A pipeline run: the stage it reached, the handles it still owns, and —
/// once `Ready` — the finished rendering context.
#[derive(Clone, Debug)]
pub struct Vulkan {
    /// The stage the run reached.
    pub stage: PipelineStage,
    /// The handles created and not yet destroyed.
    pub ledger: Ledger,
    /// The finished context; present exactly when the stage is `Ready`.
    pub render: Option<Render>,
}

/// Copies a handle list.
fn copy_handles(handles: &Vec<u64>) -> (r: Vec<u64>)
    ensures
        r@ == handles@,
{
    let mut r: Vec<u64> = Vec::new();
    let n = handles.len();
    for i in 0..n
        invariant
            n == handles@.len(),
            r@ =~= handles@.take(i as int),
    {
        r.push(handles[i]);
        assert(r@ =~= handles@.take(i + 1));
    }
    assert(handles@.take(n as int) =~= handles@);
    r
}

impl Vulkan {
    /// A fresh run: nothing created, nothing decided.
    pub fn new() -> (v: Vulkan)
        ensures
            v.stage == PipelineStage::Uninitialized,
            v.render is None,
            live_count(v.ledger) == 0,
    {
        Vulkan { stage: PipelineStage::Uninitialized, ledger: Ledger::new(), render: None }
    }

    /// Runs every stage of the bootstrap against the scripted driver
    /// answers.
    ///
    /// The run ends `Ready` exactly when every stage passes, and then the
    /// finished context reflects the script and the selection policy in
    /// every field.  Otherwise it ends `Failed` with the first failing
    /// stage's error, and the ledger records exactly the handles created
    /// before the failure, ready for [`Vulkan::teardown`].
    pub fn init(driver: &DriverFixture) -> (v: Vulkan)
        requires
            driver.wf(),
        ensures
            v.stage == PipelineStage::Ready <==> boot_succeeds(*driver),
            spec_boot_error(*driver) matches Some(e) ==> v.stage == PipelineStage::Failed(e)
                && v.render is None,
            spec_boot_error(*driver) is None ==> v.stage == PipelineStage::Ready && (
            v.render matches Some(r) && render_matches(r, *driver)),
            v.ledger.instance == (if instance_ok(*driver) {
                Some(driver.instance->Ok_0)
            } else {
                None::<u64>
            }),
            v.ledger.surface == (if surface_ok(*driver) {
                Some(driver.surface->Ok_0)
            } else {
                None::<u64>
            }),
            v.ledger.device == (if device_ok(*driver) {
                Some(driver.device->Ok_0)
            } else {
                None::<u64>
            }),
            v.ledger.swapchain == (if swapchain_ok(*driver) {
                Some(driver.swapchain->Ok_0)
            } else {
                None::<u64>
            }),
            v.ledger.image_views@ == spec_created_views(*driver),
    {
        let mut ledger = Ledger::new();

        let instance = match driver.instance {
            Ok(h) => h,
            Err(c) => {
                return Vulkan {
                    stage: PipelineStage::Failed(Error::InstanceCreationFailed(c)),
                    ledger,
                    render: None,
                };
            },
        };
        ledger.instance = Some(instance);

        let surface = match driver.surface {
            Ok(h) => h,
            Err(c) => {
                return Vulkan {
                    stage: PipelineStage::Failed(Error::SurfaceCreationFailed(c)),
                    ledger,
                    render: None,
                };
            },
        };
        ledger.surface = Some(surface);

        let (device_index, assignment) = match select_physical_device(&driver.devices) {
            Ok(pick) => pick,
            Err(e) => {
                return Vulkan { stage: PipelineStage::Failed(e), ledger, render: None };
            },
        };

        let mut queue_handles: Vec<Option<u64>> = Vec::new();
        queue_handles.push(driver.graphics_queue);
        if assignment.present_family != assignment.graphics_family {
            queue_handles.push(driver.present_queue);
        }
        assert(queue_handles@ =~= if assignment.graphics_family == assignment.present_family {
            seq![driver.graphics_queue]
        } else {
            seq![driver.graphics_queue, driver.present_queue]
        });
        assert(queue_handles@.len() == spec_requested_families(assignment).len());
        assert(all_queues_retrieved(queue_handles@) <==> (driver.graphics_queue is Some && (
        assignment.graphics_family == assignment.present_family
            || driver.present_queue is Some)));

        let device_ctx = match complete_device(assignment, driver.device, &queue_handles) {
            Ok(ctx) => {
                ledger.device = Some(ctx.device);
                ctx
            },
            Err(e) => {
                if let Ok(created) = driver.device {
                    ledger.device = Some(created);
                }
                return Vulkan { stage: PipelineStage::Failed(e), ledger, render: None };
            },
        };

        let config = match negotiate(&driver.capabilities, assignment) {
            Ok(c) => c,
            Err(e) => {
                return Vulkan { stage: PipelineStage::Failed(e), ledger, render: None };
            },
        };

        let swap_ctx = match complete_swapchain(config, driver.swapchain, copy_handles(
            &driver.images,
        )) {
            Ok(ctx) => {
                ledger.swapchain = Some(ctx.swapchain);
                ctx
            },
            Err(e) => {
                return Vulkan { stage: PipelineStage::Failed(e), ledger, render: None };
            },
        };

        let image_views = match collect_image_views(&driver.image_views) {
            Ok(handles) => handles,
            Err(failure) => {
                ledger.image_views = failure.created;
                return Vulkan {
                    stage: PipelineStage::Failed(failure.error),
                    ledger,
                    render: None,
                };
            },
        };
        ledger.image_views = copy_handles(&image_views);

        Vulkan {
            stage: PipelineStage::Ready,
            ledger,
            render: Some(
                Render {
                    instance,
                    surface,
                    physical_device_index: device_index,
                    device: device_ctx,
                    swapchain: swap_ctx,
                    image_views,
                },
            ),
        }
    }

    /// Empties the ledger and returns the destroy calls the caller must
    /// make, in strict reverse-creation order.
    pub fn teardown(&mut self) -> (ops: Vec<DriverOp>)
        ensures
            ops@ == spec_teardown_ops(old(self).ledger),
            live_count(final(self).ledger) == 0,
            final(self).ledger.image_views@ == Seq::<u64>::empty(),
            final(self).stage == old(self).stage,
            final(self).render is None,
    {
        let ops = teardown_plan(&self.ledger);
        self.ledger = Ledger::new();
        self.render = None;
        ops
    }
}

impl Render {
    /// Runs the whole negotiation pipeline against the scripted driver
    /// answers and returns the ready rendering context, or the error of
    /// the first failing stage.  The teardown a failed run owes is
    /// available through [`Vulkan::init`] and [`Vulkan::teardown`].
    pub fn new(driver: &DriverFixture) -> (r: Result<Render, Error>)
        requires
            driver.wf(),
        ensures
            spec_boot_error(*driver) matches Some(e) ==> r == Err::<Render, Error>(e),
            spec_boot_error(*driver) is None ==> (r matches Ok(render) && render_matches(
                render,
                *driver,
            )),
    {
        let v = Vulkan::init(driver);
        match v.stage {
            PipelineStage::Failed(e) => Err(e),
            _ => {
                match v.render {
                    Some(render) => Ok(render),
                    None => {
                        proof {
                            assert(false);
                        }
                        Err(Error::NoSuitablePhysicalDevice)
                    },
                }
            },
        }
    }
}

} // verus!

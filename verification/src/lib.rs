//! Device and swapchain negotiation for a windowed GPU renderer.
//!
//! The library turns the capability sets that a graphics driver reports
//! (physical devices, queue families, surface formats, present modes,
//! image-count limits) into deterministic, fully specified choices: which
//! device to use, how to create the logical device and its queues, and how
//! to configure the swapchain and its image views.  Every decision is a pure
//! function over plain values with a proved contract; the unverified
//! application layer performs the actual driver calls and feeds their
//! results back in.

use vstd::prelude::*;

pub mod device;
pub mod error;
pub mod image_views;
pub mod pipeline;
pub mod selector;
pub mod swapchain;
pub mod window;

pub use device::DeviceCreationPlan;
pub use device::DeviceQueueRequest;
pub use device::LogicalDeviceContext;
pub use device::complete_device;
pub use device::extensions_supported;
pub use device::has_swapchain_extension;
pub use device::plan_device_creation;
pub use error::Error;
pub use image_views::ImageViewFailure;
pub use image_views::ImageViewRequest;
pub use image_views::collect_image_views;
pub use image_views::plan_image_views;
pub use image_views::release_partial_views;
pub use pipeline::DriverFixture;
pub use pipeline::DriverOp;
pub use pipeline::Ledger;
pub use pipeline::PipelineStage;
pub use pipeline::Render;
pub use pipeline::Vulkan;
pub use pipeline::teardown_plan;
pub use selector::PhysicalDeviceCandidate;
pub use selector::QueueFamilyAssignment;
pub use selector::QueueFamilyDesc;
pub use selector::QUEUE_GRAPHICS_BIT;
pub use selector::select_physical_device;
pub use swapchain::choose_present_mode;
pub use swapchain::choose_surface_format;
pub use swapchain::complete_swapchain;
pub use swapchain::compute_image_count;
pub use swapchain::negotiate;
pub use swapchain::sharing_strategy;
pub use swapchain::Extent2D;
pub use swapchain::PresentMode;
pub use swapchain::SharingMode;
pub use swapchain::SurfaceCapabilitySet;
pub use swapchain::SurfaceFormat;
pub use swapchain::SwapchainConfig;
pub use swapchain::SwapchainContext;
pub use swapchain::COLOR_SPACE_SRGB_NONLINEAR;
pub use swapchain::FORMAT_B8G8R8A8_UNORM;
pub use window::Handle;
pub use window::Window;

use device::includes_swapchain_extension;
use pipeline::render_matches;
use pipeline::spec_boot_error;
use pipeline::spec_failure_teardown_ops;

verus! {

/// Top-level facade: the bootstrap inputs the caller supplies — the
/// surface handle from the windowing collaborator and the device
/// extensions to request — and the run they drive.
pub struct Alovak {
    /// The presentation target, fully constructed by the windowing layer.
    pub handle: Handle,
    /// The device extensions to request; must include the swapchain
    /// extension, since presentation is otherwise impossible.
    pub required_extensions: Vec<String>,
}

impl Alovak {
    /// Bundles the bootstrap inputs.  Callers establish beforehand that
    /// the extension list names the swapchain extension, for instance
    /// with [`has_swapchain_extension`].
    pub fn new(handle: Handle, required_extensions: Vec<String>) -> (a: Alovak)
        requires
            includes_swapchain_extension(required_extensions@),
        ensures
            a.handle == handle,
            a.required_extensions == required_extensions,
    {
        Alovak { handle, required_extensions }
    }

    /// Runs the whole pipeline against the scripted driver answers.
    ///
    /// On success the finished context comes with no pending driver work.
    /// On failure the first failing stage's error comes with the destroy
    /// calls the caller must make — exactly one per handle the run
    /// created, in strict reverse-creation order, so nothing leaks.
    pub fn bootstrap(&self, driver: &DriverFixture) -> (r: (Result<Render, Error>, Vec<DriverOp>))
        requires
            driver.wf(),
        ensures
            spec_boot_error(*driver) is None ==> (r.0 matches Ok(render) && render_matches(
                render,
                *driver,
            )) && r.1@ == Seq::<DriverOp>::empty(),
            spec_boot_error(*driver) matches Some(e) ==> r.0 == Err::<Render, Error>(e) && r.1@
                == spec_failure_teardown_ops(*driver),
    {
        let mut run = Vulkan::init(driver);
        match run.stage {
            PipelineStage::Failed(e) => {
                let ops = run.teardown();
                (Err(e), ops)
            },
            _ => {
                match run.render {
                    Some(render) => (Ok(render), Vec::new()),
                    None => {
                        proof {
                            assert(false);
                        }
                        (Err(Error::NoSuitablePhysicalDevice), Vec::new())
                    },
                }
            },
        }
    }
}

} // verus!

use alovak::Alovak;
use alovak::DriverFixture;
use alovak::DriverOp;
use alovak::Error;
use alovak::Extent2D;
use alovak::Handle;
use alovak::PhysicalDeviceCandidate;
use alovak::PipelineStage;
use alovak::PresentMode;
use alovak::QueueFamilyDesc;
use alovak::Render;
use alovak::SharingMode;
use alovak::SurfaceCapabilitySet;
use alovak::SurfaceFormat;
use alovak::Vulkan;
use alovak::Window;

/// A two-device script: device 0 lacks present support, device 1 has both
/// capabilities in its second family; every later stage succeeds.
fn two_device_fixture() -> DriverFixture {
    DriverFixture {
        instance: Ok(1),
        surface: Ok(2),
        devices: vec![
            PhysicalDeviceCandidate {
                families: vec![QueueFamilyDesc { flags: 1, queue_count: 1, present_support: false }],
                families_queried: true,
            },
            PhysicalDeviceCandidate {
                families: vec![
                    QueueFamilyDesc { flags: 0, queue_count: 1, present_support: false },
                    QueueFamilyDesc { flags: 1, queue_count: 2, present_support: true },
                ],
                families_queried: true,
            },
        ],
        device: Ok(10),
        graphics_queue: Some(50),
        present_queue: Some(51),
        capabilities: SurfaceCapabilitySet {
            min_image_count: 2,
            max_image_count: 0,
            current_extent: Extent2D { width: 800, height: 600 },
            current_transform: 1,
            formats: vec![
                SurfaceFormat { format: 37, color_space: 0 },
                SurfaceFormat { format: 44, color_space: 0 },
            ],
            present_modes: vec![PresentMode::Fifo, PresentMode::Mailbox],
        },
        swapchain: Ok(77),
        images: vec![100, 101, 102],
        image_views: vec![Ok(200), Ok(201), Ok(202)],
    }
}

/// Counts destroy calls per resource kind, the way a counting test double
/// would observe them.
fn destroy_counts(ops: &[DriverOp]) -> (usize, usize, usize, usize, usize) {
    let mut views = 0;
    let mut swapchains = 0;
    let mut devices = 0;
    let mut surfaces = 0;
    let mut instances = 0;
    for op in ops {
        match op {
            DriverOp::DestroyImageView(_) => views += 1,
            DriverOp::DestroySwapchain(_) => swapchains += 1,
            DriverOp::DestroyDevice(_) => devices += 1,
            DriverOp::DestroySurface(_) => surfaces += 1,
            DriverOp::DestroyInstance(_) => instances += 1,
        }
    }
    (views, swapchains, devices, surfaces, instances)
}

#[test]
fn end_to_end_reaches_ready_on_the_second_device() {
    let driver = two_device_fixture();
    let render = Render::new(&driver).unwrap();
    // Device 1 was selected, with both roles on its family 1.
    assert_eq!(render.physical_device_index, 1);
    assert_eq!(render.device.assignment.graphics_family, 1);
    assert_eq!(render.device.assignment.present_family, 1);
    // The two roles share that family, so they share one queue handle.
    assert_eq!(render.device.graphics_queue, 50);
    assert_eq!(render.device.present_queue, 50);
    assert_eq!(render.instance, 1);
    assert_eq!(render.surface, 2);
    assert_eq!(render.device.device, 10);
    // Negotiated choices.
    let config = &render.swapchain.config;
    assert_eq!(config.format, SurfaceFormat { format: 44, color_space: 0 });
    assert_eq!(config.present_mode, PresentMode::Mailbox);
    assert_eq!(config.image_count, 3);
    assert_eq!(config.extent, Extent2D { width: 800, height: 600 });
    assert_eq!(config.sharing_mode, SharingMode::Exclusive);
    assert!(config.queue_family_indices.is_empty());
    // One view per image, and as many views as the negotiated image count.
    assert_eq!(render.swapchain.swapchain, 77);
    assert_eq!(render.swapchain.images, vec![100, 101, 102]);
    assert_eq!(render.image_views, vec![200, 201, 202]);
    assert_eq!(render.image_views.len(), config.image_count as usize);
}

#[test]
fn init_reports_the_ready_stage() {
    let driver = two_device_fixture();
    let run = Vulkan::init(&driver);
    assert_eq!(run.stage, PipelineStage::Ready);
    assert!(run.render.is_some());
}

#[test]
fn swapchain_failure_tears_down_without_leaks() {
    let mut driver = two_device_fixture();
    driver.swapchain = Err(-4);
    let alovak = Alovak::new(Handle::Win32(0x1000), vec!["VK_KHR_swapchain".to_owned()]);
    let (result, ops) = alovak.bootstrap(&driver);
    assert_eq!(result.unwrap_err(), Error::SwapchainCreationFailed(-4));
    // The forced failure at the swapchain stage leaves created handles:
    // instance, surface, device.  Destroy calls must match create calls
    // exactly, in reverse-creation order.
    assert_eq!(
        ops,
        vec![DriverOp::DestroyDevice(10), DriverOp::DestroySurface(2), DriverOp::DestroyInstance(1)]
    );
    assert_eq!(destroy_counts(&ops), (0, 0, 1, 1, 1));
}

#[test]
fn view_failure_tears_down_partial_views_first() {
    let mut driver = two_device_fixture();
    driver.image_views = vec![Ok(200), Ok(201), Err(-9)];
    let alovak = Alovak::new(Handle::Win32(0x1000), vec!["VK_KHR_swapchain".to_owned()]);
    let (result, ops) = alovak.bootstrap(&driver);
    assert_eq!(result.unwrap_err(), Error::ImageViewCreationFailed(-9));
    assert_eq!(
        ops,
        vec![
            DriverOp::DestroyImageView(201),
            DriverOp::DestroyImageView(200),
            DriverOp::DestroySwapchain(77),
            DriverOp::DestroyDevice(10),
            DriverOp::DestroySurface(2),
            DriverOp::DestroyInstance(1),
        ]
    );
    // Two views, one swapchain, one device, one surface, one instance were
    // created before the failure; each is destroyed exactly once.
    assert_eq!(destroy_counts(&ops), (2, 1, 1, 1, 1));
}

#[test]
fn queue_retrieval_failure_still_destroys_the_device() {
    let mut driver = two_device_fixture();
    driver.graphics_queue = None;
    let alovak = Alovak::new(Handle::Custom(3), vec!["VK_KHR_swapchain".to_owned()]);
    let (result, ops) = alovak.bootstrap(&driver);
    assert_eq!(result.unwrap_err(), Error::QueueRetrievalFailed);
    // The device itself was created before retrieval failed.
    assert_eq!(
        ops,
        vec![DriverOp::DestroyDevice(10), DriverOp::DestroySurface(2), DriverOp::DestroyInstance(1)]
    );
}

#[test]
fn instance_failure_leaves_nothing_to_destroy() {
    let mut driver = two_device_fixture();
    driver.instance = Err(-1);
    let alovak = Alovak::new(Handle::Win32(0x1000), vec!["VK_KHR_swapchain".to_owned()]);
    let (result, ops) = alovak.bootstrap(&driver);
    assert_eq!(result.unwrap_err(), Error::InstanceCreationFailed(-1));
    assert!(ops.is_empty());
}

#[test]
fn surface_failure_destroys_only_the_instance() {
    let mut driver = two_device_fixture();
    driver.surface = Err(-6);
    let alovak = Alovak::new(Handle::Win32(0x1000), vec!["VK_KHR_swapchain".to_owned()]);
    let (result, ops) = alovak.bootstrap(&driver);
    assert_eq!(result.unwrap_err(), Error::SurfaceCreationFailed(-6));
    assert_eq!(ops, vec![DriverOp::DestroyInstance(1)]);
}

#[test]
fn device_creation_failure_destroys_surface_and_instance() {
    let mut driver = two_device_fixture();
    driver.device = Err(-2);
    let alovak = Alovak::new(Handle::Win32(0x1000), vec!["VK_KHR_swapchain".to_owned()]);
    let (result, ops) = alovak.bootstrap(&driver);
    assert_eq!(result.unwrap_err(), Error::DeviceCreationFailed(-2));
    assert_eq!(ops, vec![DriverOp::DestroySurface(2), DriverOp::DestroyInstance(1)]);
}

#[test]
fn no_qualifying_device_fails_the_pipeline() {
    let mut driver = two_device_fixture();
    driver.devices = vec![PhysicalDeviceCandidate {
        families: vec![QueueFamilyDesc { flags: 1, queue_count: 1, present_support: false }],
        families_queried: true,
    }];
    let result = Render::new(&driver);
    assert_eq!(result.unwrap_err(), Error::NoSuitablePhysicalDevice);
}

#[test]
fn incompatible_surface_fails_the_pipeline() {
    let mut driver = two_device_fixture();
    driver.capabilities.present_modes = Vec::new();
    let result = Render::new(&driver);
    assert_eq!(result.unwrap_err(), Error::SurfaceIncompatible);
}

#[test]
fn a_fresh_run_is_uninitialized() {
    let run = Vulkan::new();
    assert_eq!(run.stage, PipelineStage::Uninitialized);
    assert!(run.render.is_none());
    assert!(run.ledger.image_views.is_empty());
}

#[test]
fn teardown_empties_the_ledger() {
    let driver = two_device_fixture();
    let mut run = Vulkan::init(&driver);
    let ops = run.teardown();
    // A completed run owns three views, the swapchain, the device, the
    // surface, and the instance: seven destroy calls for seven creates.
    assert_eq!(ops.len(), 7);
    assert_eq!(destroy_counts(&ops), (3, 1, 1, 1, 1));
    assert!(run.render.is_none());
    assert!(run.ledger.image_views.is_empty());
    assert_eq!(run.ledger.instance, None);
    assert_eq!(run.ledger.swapchain, None);
}

struct ScriptedWindow {
    hwnd: isize,
}

impl Window for ScriptedWindow {
    fn handle(self) -> Result<Handle, Error> {
        Ok(Handle::Win32(self.hwnd))
    }
}

#[test]
fn a_window_hands_over_its_handle() {
    let window = ScriptedWindow { hwnd: 0x2a };
    let handle = window.handle().unwrap();
    assert_eq!(handle, Handle::Win32(0x2a));
    let alovak = Alovak::new(handle, vec!["VK_KHR_swapchain".to_owned()]);
    assert_eq!(alovak.handle, Handle::Win32(0x2a));
    assert_eq!(alovak.required_extensions, vec!["VK_KHR_swapchain".to_owned()]);
}

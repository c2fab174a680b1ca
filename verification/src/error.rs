//! The failure taxonomy of the negotiation pipeline.

use vstd::prelude::*;

verus! {

/// Why a pipeline run failed.  Each stage of the bootstrap has its own
/// variant; variants that originate in a driver call carry the raw driver
/// result code so the caller can report it unmodified.
#[derive(Clone, Copy, Debug, PartialEq, Eq, Structural)]
pub enum Error {
    /// Creating the API instance failed with the given driver code.
    InstanceCreationFailed(i32),
    /// Turning the native window handle into a surface failed.
    SurfaceCreationFailed(i32),
    /// No enumerated device offers both a graphics-capable and a
    /// present-capable queue family.
    NoSuitablePhysicalDevice,
    /// A device was reachable but its queue families could not be
    /// enumerated.
    NoSuitableQueueFamily,
    /// Creating the logical device failed with the given driver code.
    DeviceCreationFailed(i32),
    /// A requested queue family yielded no queue handle; the driver broke
    /// its contract.
    QueueRetrievalFailed,
    /// The surface reports an empty format list, an empty present-mode
    /// list, or a zero current extent.
    SurfaceIncompatible,
    /// Creating the swapchain failed with the given driver code.
    SwapchainCreationFailed(i32),
    /// Creating an image view failed with the given driver code.
    ImageViewCreationFailed(i32),
}

/// The stable label of each error variant.
pub open spec fn spec_describe(e: Error) -> Seq<char> {
    match e {
        Error::InstanceCreationFailed(_) => "instance creation failed"@,
        Error::SurfaceCreationFailed(_) => "surface creation failed"@,
        Error::NoSuitablePhysicalDevice => "no suitable physical device"@,
        Error::NoSuitableQueueFamily => "no suitable queue family"@,
        Error::DeviceCreationFailed(_) => "device creation failed"@,
        Error::QueueRetrievalFailed => "queue retrieval failed"@,
        Error::SurfaceIncompatible => "surface incompatible"@,
        Error::SwapchainCreationFailed(_) => "swapchain creation failed"@,
        Error::ImageViewCreationFailed(_) => "image view creation failed"@,
    }
}

impl Error {
    /// A short human-readable label for the error.
    pub fn describe(&self) -> (r: &'static str)
        ensures
            r@ == spec_describe(*self),
    {
        match self {
            Error::InstanceCreationFailed(_) => "instance creation failed",
            Error::SurfaceCreationFailed(_) => "surface creation failed",
            Error::NoSuitablePhysicalDevice => "no suitable physical device",
            Error::NoSuitableQueueFamily => "no suitable queue family",
            Error::DeviceCreationFailed(_) => "device creation failed",
            Error::QueueRetrievalFailed => "queue retrieval failed",
            Error::SurfaceIncompatible => "surface incompatible",
            Error::SwapchainCreationFailed(_) => "swapchain creation failed",
            Error::ImageViewCreationFailed(_) => "image view creation failed",
        }
    }

    /// The driver result code the error carries, if it originated in a
    /// driver call.
    pub fn driver_code(&self) -> (r: Option<i32>)
        ensures
            r == spec_driver_code(*self),
    {
        match self {
            Error::InstanceCreationFailed(c) => Some(*c),
            Error::SurfaceCreationFailed(c) => Some(*c),
            Error::DeviceCreationFailed(c) => Some(*c),
            Error::SwapchainCreationFailed(c) => Some(*c),
            Error::ImageViewCreationFailed(c) => Some(*c),
            _ => None,
        }
    }
}

/// The driver result code wrapped by an error, where one exists.
pub open spec fn spec_driver_code(e: Error) -> Option<i32> {
    match e {
        Error::InstanceCreationFailed(c) => Some(c),
        Error::SurfaceCreationFailed(c) => Some(c),
        Error::DeviceCreationFailed(c) => Some(c),
        Error::SwapchainCreationFailed(c) => Some(c),
        Error::ImageViewCreationFailed(c) => Some(c),
        Error::NoSuitablePhysicalDevice => None,
        Error::NoSuitableQueueFamily => None,
        Error::QueueRetrievalFailed => None,
        Error::SurfaceIncompatible => None,
    }
}

} // verus!

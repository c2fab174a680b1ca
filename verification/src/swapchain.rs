//! Swapchain negotiation.
//!
//! Given the capability snapshot queried for the selected (device, surface)
//! pair, the negotiator derives a full swapchain configuration with a fixed
//! policy: prefer the 8-bit BGRA / non-linear sRGB format pair, prefer the
//! low-latency mailbox present mode with FIFO as the mandated fallback,
//! request one image more than the reported minimum clamped to a non-zero
//! maximum, and share images across queue families only when the graphics
//! and present roles resolve to different families.

use vstd::prelude::*;

use crate::error::Error;
use crate::selector::QueueFamilyAssignment;

verus! {

/// Driver code of the 8-bit BGRA unsigned-normalized pixel format.
pub const FORMAT_B8G8R8A8_UNORM: u32 = 44;

/// Driver code of the non-linear sRGB color space.
pub const COLOR_SPACE_SRGB_NONLINEAR: u32 = 0;

/// A surface format: a pixel format paired with a color space.
#[derive(Clone, Copy, Debug, PartialEq, Eq, Structural)]
pub struct SurfaceFormat {
    /// Driver code of the pixel format.
    pub format: u32,
    /// Driver code of the color space.
    pub color_space: u32,
}

/// A frame-pacing policy for presenting images.
#[derive(Clone, Copy, Debug, PartialEq, Eq, Structural)]
pub enum PresentMode {
    /// Present immediately; may tear.
    Immediate,
    /// Low-latency triple buffering.
    Mailbox,
    /// Queue frames; universally guaranteed by the presentation contract.
    Fifo,
    /// FIFO that tears when a frame is late.
    FifoRelaxed,
    /// Any other mode, carried by its raw driver code.
    Other(i32),
}

/// How swapchain images are shared between queue families.
#[derive(Clone, Copy, Debug, PartialEq, Eq, Structural)]
pub enum SharingMode {
    /// One family owns the images; no explicit family list.
    Exclusive,
    /// The listed families access the images concurrently.
    Concurrent,
}

/// A surface extent in pixels.
#[derive(Clone, Copy, Debug, PartialEq, Eq, Structural)]
pub struct Extent2D {
    pub width: u32,
    pub height: u32,
}

/// The read-only capability snapshot queried for one (device, surface)
/// pair: limits, current values, and the supported format and present-mode
/// lists, all in driver query order.
#[derive(Clone, Debug)]
pub struct SurfaceCapabilitySet {
    /// The fewest images a swapchain on this surface may hold.
    pub min_image_count: u32,
    /// The most images it may hold; zero means unbounded.
    pub max_image_count: u32,
    /// The surface's current extent.
    pub current_extent: Extent2D,
    /// Driver code of the surface's current transform.
    pub current_transform: u32,
    /// Supported formats, in query order.
    pub formats: Vec<SurfaceFormat>,
    /// Supported present modes, in query order.
    pub present_modes: Vec<PresentMode>,
}

/// The fully resolved swapchain configuration the pipeline will request.
#[derive(Clone, Debug)]
pub struct SwapchainConfig {
    /// The chosen format and color space.
    pub format: SurfaceFormat,
    /// The chosen present mode.
    pub present_mode: PresentMode,
    /// The number of images to request.
    pub image_count: u32,
    /// The extent, taken from the capability set's current value.
    pub extent: Extent2D,
    /// The pre-transform, taken from the capability set's current value.
    pub pre_transform: u32,
    /// How images are shared between the graphics and present families.
    pub sharing_mode: SharingMode,
    /// The families named for concurrent sharing; empty when exclusive.
    pub queue_family_indices: Vec<u32>,
}

/// The created swapchain: its handle, the configuration it was created
/// with, and the driver-owned images it handed back, in order.
#[derive(Clone, Debug)]
pub struct SwapchainContext {
    /// The swapchain handle.
    pub swapchain: u64,
    /// The configuration the swapchain was created with.
    pub config: SwapchainConfig,
    /// The swapchain's images; owned by the driver, not by the pipeline.
    pub images: Vec<u64>,
}

/// The preferred format pair: 8-bit BGRA unsigned-normalized with the
/// non-linear sRGB color space.
pub open spec fn preferred_format() -> SurfaceFormat {
    SurfaceFormat { format: FORMAT_B8G8R8A8_UNORM, color_space: COLOR_SPACE_SRGB_NONLINEAR }
}

/// The format the policy chooses from a non-empty list: the preferred pair
/// when the list holds it anywhere, else the first entry in query order.
pub open spec fn spec_choose_format(formats: Seq<SurfaceFormat>) -> SurfaceFormat
    recommends
        formats.len() > 0,
{
    if formats.contains(preferred_format()) {
        preferred_format()
    } else {
        formats[0]
    }
}

/// The present mode the policy chooses: mailbox when the list holds it,
/// else the universally guaranteed FIFO mode.
pub open spec fn spec_choose_present_mode(modes: Seq<PresentMode>) -> PresentMode {
    if modes.contains(PresentMode::Mailbox) {
        PresentMode::Mailbox
    } else {
        PresentMode::Fifo
    }
}

/// The image count the policy requests: one more than the minimum, clamped
/// down to the maximum when the maximum is non-zero.
pub open spec fn spec_image_count(min_image_count: int, max_image_count: int) -> int {
    if max_image_count > 0 && min_image_count + 1 > max_image_count {
        max_image_count
    } else {
        min_image_count + 1
    }
}

/// Whether a configuration's sharing fields follow the policy for an
/// assignment: exclusive with no family list when the graphics and present
/// roles share a family, concurrent across exactly those two families
/// otherwise.
pub open spec fn negotiated_sharing(c: SwapchainConfig, a: QueueFamilyAssignment) -> bool {
    if a.graphics_family == a.present_family {
        c.sharing_mode == SharingMode::Exclusive && c.queue_family_indices@ =~= Seq::<u32>::empty()
    } else {
        c.sharing_mode == SharingMode::Concurrent && c.queue_family_indices@ =~= seq![
            a.graphics_family,
            a.present_family,
        ]
    }
}

/// Whether a capability snapshot can host a swapchain at all: both lists
/// non-empty and a non-zero current extent.
pub open spec fn caps_compatible(caps: SurfaceCapabilitySet) -> bool {
    &&& caps.formats@.len() > 0
    &&& caps.present_modes@.len() > 0
    &&& caps.current_extent.width > 0
    &&& caps.current_extent.height > 0
}

/// Chooses the surface format from the queried list.
///
/// An empty list is a `SurfaceIncompatible` failure; otherwise the
/// preferred BGRA/sRGB pair is chosen when present anywhere in the list,
/// else the first entry in query order.
pub fn choose_surface_format(formats: &Vec<SurfaceFormat>) -> (r: Result<SurfaceFormat, Error>)
    ensures
        formats@.len() == 0 <==> r == Err::<SurfaceFormat, Error>(Error::SurfaceIncompatible),
        formats@.len() > 0 ==> r == Ok::<SurfaceFormat, Error>(spec_choose_format(formats@)),
        formats@.contains(preferred_format()) ==> r == Ok::<SurfaceFormat, Error>(
            preferred_format(),
        ),
        formats@.len() > 0 && !formats@.contains(preferred_format()) ==> r == Ok::<
            SurfaceFormat,
            Error,
        >(formats@[0]),
{
    if formats.len() == 0 {
        return Err(Error::SurfaceIncompatible);
    }
    let n = formats.len();
    for i in 0..n
        invariant
            n == formats@.len(),
            forall|j: int| 0 <= j < i ==> formats@[j] != preferred_format(),
    {
        let f = formats[i];
        if f.format == FORMAT_B8G8R8A8_UNORM && f.color_space == COLOR_SPACE_SRGB_NONLINEAR {
            assert(formats@.contains(preferred_format()));
            return Ok(f);
        }
    }
    assert(!formats@.contains(preferred_format()));
    Ok(formats[0])
}

/// Chooses the present mode from the queried list.
///
/// An empty list is a `SurfaceIncompatible` failure; otherwise mailbox is
/// chosen when present anywhere in the list, else FIFO.
pub fn choose_present_mode(modes: &Vec<PresentMode>) -> (r: Result<PresentMode, Error>)
    ensures
        modes@.len() == 0 <==> r == Err::<PresentMode, Error>(Error::SurfaceIncompatible),
        modes@.len() > 0 ==> r == Ok::<PresentMode, Error>(spec_choose_present_mode(modes@)),
{
    if modes.len() == 0 {
        return Err(Error::SurfaceIncompatible);
    }
    let n = modes.len();
    for i in 0..n
        invariant
            n == modes@.len(),
            forall|j: int| 0 <= j < i ==> modes@[j] != PresentMode::Mailbox,
    {
        match modes[i] {
            PresentMode::Mailbox => {
                assert(modes@.contains(PresentMode::Mailbox));
                return Ok(PresentMode::Mailbox);
            },
            _ => {},
        }
    }
    assert(!modes@.contains(PresentMode::Mailbox));
    Ok(PresentMode::Fifo)
}

/// Computes the image count to request: `min_image_count + 1`, clamped
/// down to `max_image_count` when the reported maximum is non-zero (a zero
/// maximum means unbounded).
pub fn compute_image_count(min_image_count: u32, max_image_count: u32) -> (r: u32)
    requires
        min_image_count < u32::MAX,
    ensures
        r == spec_image_count(min_image_count as int, max_image_count as int),
{
    let mut count = min_image_count + 1;
    if max_image_count > 0 && count > max_image_count {
        count = max_image_count;
    }
    count
}

/// Derives the sharing strategy from the queue-family assignment: when the
/// graphics and present roles share a family, images are owned exclusively
/// and no family list is given; when they differ, images are shared
/// concurrently across exactly those two families.
pub fn sharing_strategy(assignment: QueueFamilyAssignment) -> (r: (SharingMode, Vec<u32>))
    ensures
        assignment.graphics_family == assignment.present_family ==> r.0 == SharingMode::Exclusive
            && r.1@ =~= Seq::<u32>::empty(),
        assignment.graphics_family != assignment.present_family ==> r.0 == SharingMode::Concurrent
            && r.1@ =~= seq![assignment.graphics_family, assignment.present_family],
{
    if assignment.graphics_family != assignment.present_family {
        let mut indices: Vec<u32> = Vec::new();
        indices.push(assignment.graphics_family);
        indices.push(assignment.present_family);
        (SharingMode::Concurrent, indices)
    } else {
        (SharingMode::Exclusive, Vec::new())
    }
}

/// Derives the full swapchain configuration from the capability snapshot
/// and the queue-family assignment.
///
/// Fails with `SurfaceIncompatible` exactly when the snapshot reports an
/// empty format list, an empty present-mode list, or a zero current
/// extent.  On success every field of the configuration is determined by
/// the selection policy: the chosen format and present mode, the clamped
/// image count, the current extent and transform, and the sharing
/// strategy.
pub fn negotiate(caps: &SurfaceCapabilitySet, assignment: QueueFamilyAssignment) -> (r: Result<
    SwapchainConfig,
    Error,
>)
    requires
        caps.min_image_count < u32::MAX,
    ensures
        !caps_compatible(*caps) <==> r is Err,
        r matches Err(e) ==> e == Error::SurfaceIncompatible,
        r matches Ok(c) ==> {
            &&& c.format == spec_choose_format(caps.formats@)
            &&& c.present_mode == spec_choose_present_mode(caps.present_modes@)
            &&& c.image_count == spec_image_count(
                caps.min_image_count as int,
                caps.max_image_count as int,
            )
            &&& c.extent == caps.current_extent
            &&& c.pre_transform == caps.current_transform
            &&& negotiated_sharing(c, assignment)
        },
{
    if caps.current_extent.width == 0 || caps.current_extent.height == 0 {
        return Err(Error::SurfaceIncompatible);
    }
    let format = match choose_surface_format(&caps.formats) {
        Ok(f) => f,
        Err(e) => { return Err(e) },
    };
    let present_mode = match choose_present_mode(&caps.present_modes) {
        Ok(m) => m,
        Err(e) => { return Err(e) },
    };
    let image_count = compute_image_count(caps.min_image_count, caps.max_image_count);
    let (sharing_mode, queue_family_indices) = sharing_strategy(assignment);
    Ok(
        SwapchainConfig {
            format,
            present_mode,
            image_count,
            extent: caps.current_extent,
            pre_transform: caps.current_transform,
            sharing_mode,
            queue_family_indices,
        },
    )
}

/// Completes the swapchain stage from the driver's answer to the creation
/// request: a driver error is wrapped as `SwapchainCreationFailed`, and a
/// created swapchain is paired with its configuration and the image list
/// the driver handed back.
pub fn complete_swapchain(
    config: SwapchainConfig,
    created: Result<u64, i32>,
    images: Vec<u64>,
) -> (r: Result<SwapchainContext, Error>)
    ensures
        created matches Err(c) ==> r == Err::<SwapchainContext, Error>(
            Error::SwapchainCreationFailed(c),
        ),
        created matches Ok(h) ==> r matches Ok(ctx) && ctx.swapchain == h && ctx.config == config
            && ctx.images == images,
{
    match created {
        Ok(h) => Ok(SwapchainContext { swapchain: h, config, images }),
        Err(c) => Err(Error::SwapchainCreationFailed(c)),
    }
}

/// Format choice ignores position: any two lists that hold the preferred
/// pair — anywhere, in any order — yield the same choice.
pub proof fn lemma_format_choice_position_independent(
    formats1: Seq<SurfaceFormat>,
    formats2: Seq<SurfaceFormat>,
)
    requires
        formats1.contains(preferred_format()),
        formats2.contains(preferred_format()),
    ensures
        spec_choose_format(formats1) == spec_choose_format(formats2),
{
}

/// Format choice is idempotent: choosing again from the singleton list
/// that holds a previous choice returns that choice unchanged.
pub proof fn lemma_format_choice_idempotent(formats: Seq<SurfaceFormat>)
    requires
        formats.len() > 0,
    ensures
        spec_choose_format(seq![spec_choose_format(formats)]) == spec_choose_format(formats),
{
    let chosen = spec_choose_format(formats);
    if formats.contains(preferred_format()) {
        assert(seq![chosen].contains(preferred_format())) by {
            assert(seq![chosen][0] == preferred_format());
        }
    } else {
        assert(chosen == formats[0]);
        assert(!seq![chosen].contains(preferred_format())) by {
            assert(forall|i: int|
                0 <= i < seq![chosen].len() ==> seq![chosen][i] != preferred_format());
        }
        assert(seq![chosen][0] == chosen);
    }
}

/// Present-mode choice ignores position as well: any two lists that hold
/// mailbox yield mailbox.
pub proof fn lemma_present_mode_choice_position_independent(
    modes1: Seq<PresentMode>,
    modes2: Seq<PresentMode>,
)
    requires
        modes1.contains(PresentMode::Mailbox),
        modes2.contains(PresentMode::Mailbox),
    ensures
        spec_choose_present_mode(modes1) == spec_choose_present_mode(modes2),
{
}

} // verus!

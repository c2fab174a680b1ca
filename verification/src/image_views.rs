//! Image-view creation planning and completion.
//!
//! Each swapchain image gets exactly one 2-D color view: identity component
//! mapping, a single mip level, a single array layer, color aspect only.
//! Partial success is not a valid end state — when a creation fails, every
//! view created before it must be released, newest first, before the error
//! propagates.

use vstd::prelude::*;

use crate::error::Error;
use crate::pipeline::DriverOp;

verus! {

/// Driver code of the 2-D image-view type.
pub const IMAGE_VIEW_TYPE_2D: u32 = 1;

/// The aspect bit that selects an image's color data.
pub const IMAGE_ASPECT_COLOR_BIT: u32 = 1;

/// One image-view creation request.  The fixed fields record the factory's
/// policy; the application layer hands them to the driver verbatim.
#[derive(Clone, Copy, Debug, PartialEq, Eq, Structural)]
pub struct ImageViewRequest {
    /// The swapchain image the view wraps.
    pub image: u64,
    /// Driver code of the view's pixel format: the negotiated one.
    pub format: u32,
    /// Driver code of the view type; always 2-D.
    pub view_type: u32,
    /// Aspect bitmask; always color only.
    pub aspect_mask: u32,
    /// Number of mip levels; always one.
    pub level_count: u32,
    /// Number of array layers; always one.
    pub layer_count: u32,
}

/// A failed view stage: the error to propagate and the views created
/// before the failure, in creation order, which the caller must release
/// newest first.
#[derive(Clone, Debug)]
pub struct ImageViewFailure {
    /// The wrapped driver error.
    pub error: Error,
    /// The views created before the failure, in creation order.
    pub created: Vec<u64>,
}

/// Index of the first failed view-creation result, if any.
pub open spec fn first_view_error_from(results: Seq<Result<u64, i32>>, i: int) -> Option<int>
    decreases results.len() - i,
{
    if i < 0 || i >= results.len() {
        None
    } else if results[i] is Err {
        Some(i)
    } else {
        first_view_error_from(results, i + 1)
    }
}

/// Index of the first failed view-creation result of the list, if any.
pub open spec fn first_view_error(results: Seq<Result<u64, i32>>) -> Option<int> {
    first_view_error_from(results, 0)
}

/// The handles of the first `n` results, all of which succeeded.
pub open spec fn view_handles_prefix(results: Seq<Result<u64, i32>>, n: int) -> Seq<u64> {
    results.take(n).map_values(|r: Result<u64, i32>| r->Ok_0)
}

/// Builds one view request per swapchain image, in image order, with the
/// negotiated format and the factory's fixed policy: 2-D, color aspect
/// only, one mip level, one array layer.
pub fn plan_image_views(images: &Vec<u64>, format: u32) -> (r: Vec<ImageViewRequest>)
    ensures
        r@.len() == images@.len(),
        forall|i: int|
            0 <= i < r@.len() ==> #[trigger] r@[i] == (ImageViewRequest {
                image: images@[i],
                format,
                view_type: IMAGE_VIEW_TYPE_2D,
                aspect_mask: IMAGE_ASPECT_COLOR_BIT,
                level_count: 1,
                layer_count: 1,
            }),
{
    let mut requests: Vec<ImageViewRequest> = Vec::new();
    let n = images.len();
    for i in 0..n
        invariant
            n == images@.len(),
            requests@.len() == i,
            forall|j: int|
                0 <= j < i ==> #[trigger] requests@[j] == (ImageViewRequest {
                    image: images@[j],
                    format,
                    view_type: IMAGE_VIEW_TYPE_2D,
                    aspect_mask: IMAGE_ASPECT_COLOR_BIT,
                    level_count: 1,
                    layer_count: 1,
                }),
    {
        requests.push(
            ImageViewRequest {
                image: images[i],
                format,
                view_type: IMAGE_VIEW_TYPE_2D,
                aspect_mask: IMAGE_ASPECT_COLOR_BIT,
                level_count: 1,
                layer_count: 1,
            },
        );
    }
    requests
}

/// Completes the view stage from the per-image creation results, given in
/// creation order.
///
/// When every creation succeeded, returns the view handles in image order.
/// At the first failure, returns `ImageViewCreationFailed` wrapping that
/// failure's driver code together with the views created before it —
/// failed entries are never skipped silently, and the caller releases the
/// partial views before propagating the error.
pub fn collect_image_views(results: &Vec<Result<u64, i32>>) -> (r: Result<
    Vec<u64>,
    ImageViewFailure,
>)
    ensures
        first_view_error(results@) is None <==> r is Ok,
        r matches Ok(handles) ==> handles@ == view_handles_prefix(
            results@,
            results@.len() as int,
        ),
        r matches Err(f) ==> {
            &&& first_view_error(results@) matches Some(k)
            &&& f.error == Error::ImageViewCreationFailed(results@[k]->Err_0)
            &&& f.created@ == view_handles_prefix(results@, k)
        },
{
    let mut created: Vec<u64> = Vec::new();
    let n = results.len();
    for i in 0..n
        invariant
            n == results@.len(),
            first_view_error(results@) == first_view_error_from(results@, i as int),
            created@ =~= view_handles_prefix(results@, i as int),
    {
        match results[i] {
            Ok(h) => {
                created.push(h);
                assert(created@ =~= view_handles_prefix(results@, i + 1));
            },
            Err(c) => {
                return Err(
                    ImageViewFailure { error: Error::ImageViewCreationFailed(c), created },
                );
            },
        }
    }
    Ok(created)
}

/// The release plan for a partial view stage: one destroy per created
/// view, newest first, so already-created views are released before the
/// error propagates.
pub fn release_partial_views(created: &Vec<u64>) -> (ops: Vec<DriverOp>)
    ensures
        ops@.len() == created@.len(),
        forall|i: int|
            0 <= i < ops@.len() ==> #[trigger] ops@[i] == DriverOp::DestroyImageView(
                created@[created@.len() - 1 - i],
            ),
{
    let mut ops: Vec<DriverOp> = Vec::new();
    let n = created.len();
    for i in 0..n
        invariant
            n == created@.len(),
            ops@.len() == i,
            forall|j: int|
                0 <= j < i ==> #[trigger] ops@[j] == DriverOp::DestroyImageView(
                    created@[created@.len() - 1 - j],
                ),
    {
        ops.push(DriverOp::DestroyImageView(created[n - 1 - i]));
    }
    ops
}

} // verus!

//! The framebuffer set: one framebuffer per swapchain image, each wrapping
//! that image in a view bound to the shared render pass.

use vstd::prelude::*;

use crate::swapchain::Extent;

verus! {

/// The plan for one framebuffer: which swapchain image it wraps, the
/// extent it is created with, and its layer count.
#[derive(Debug, Clone, Copy, PartialEq, Eq, Structural)]
pub struct FramebufferPlan {
    /// Position of the wrapped image in the swapchain's image list.
    pub image_index: usize,
    pub extent: Extent,
    pub layers: u32,
}

/// Plan one framebuffer per swapchain image, in swapchain image order,
/// each wrapping its image at the negotiated extent with a single layer.
pub fn create_framebuffers(image_count: usize, extent: Extent) -> (r: Vec<FramebufferPlan>)
    ensures
        r@.len() == image_count,
        forall|i: int| 0 <= i < image_count ==> r@[i] == (FramebufferPlan {
            image_index: i as usize,
            extent,
            layers: 1,
        }),
{
    let mut framebuffers: Vec<FramebufferPlan> = Vec::new();
    let mut i: usize = 0;
    while i < image_count
        invariant
            0 <= i <= image_count,
            framebuffers@.len() == i,
            forall|j: int| 0 <= j < i ==> framebuffers@[j] == (FramebufferPlan {
                image_index: j as usize,
                extent,
                layers: 1,
            }),
        decreases image_count - i,
    {
        framebuffers.push(FramebufferPlan { image_index: i, extent, layers: 1 });
        i = i + 1;
    }
    framebuffers
}

} // verus!

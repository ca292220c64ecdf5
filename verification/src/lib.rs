//! Verified setup core for a hardware-accelerated rendering context.
//!
//! The library models the negotiation a renderer performs against the host
//! graphics driver — picking a physical device, resolving queue families,
//! negotiating a swapchain, and describing the render pass, pipeline and
//! framebuffers — as decisions over plain values, each with a proved
//! contract.  The unverified shell around it performs the actual driver
//! calls and feeds their results into these decisions.

pub mod device;
pub mod elements;
pub mod engine;
pub mod error;
pub mod face;
pub mod framebuffer;
pub mod instance;
pub mod pipeline;
pub mod render_pass;
pub mod swapchain;
pub mod token;

use vstd::prelude::*;

verus! {

/// Clamp `x` into the inclusive range `[lo, hi]`.
pub open spec fn clamp_u32(x: u32, lo: u32, hi: u32) -> u32 {
    if x < lo {
        lo
    } else if x > hi {
        hi
    } else {
        x
    }
}

/// Character-wise string equality.
pub(crate) fn str_eq(a: &str, b: &str) -> (r: bool)
    ensures
        r == (a@ == b@),
{
    let a_len = a.unicode_len();
    let b_len = b.unicode_len();
    if a_len != b_len {
        return false;
    }
    let mut i: usize = 0;
    while i < a_len
        invariant
            a_len == a@.len(),
            b_len == b@.len(),
            a_len == b_len,
            0 <= i <= a_len,
            forall|j: int| 0 <= j < i ==> a@[j] == b@[j],
        decreases a_len - i,
    {
        if a.get_char(i) != b.get_char(i) {
            return false;
        }
        i = i + 1;
    }
    proof {
        assert(a@ =~= b@);
    }
    true
}

} // verus!

//! Decision core of a small real-time renderer.
//!
//! The GPU API itself (instance, device, swapchain, queue objects) lives in
//! the unverified shell around this crate; every decision that shell makes —
//! which adapter and queue family to use, how many swapchain images to ask
//! for, which surface format and present mode to pick, how the frame loop
//! advances its slots, and how uploads are staged and copied — is computed
//! here, as verified functions over plain values.

use vstd::prelude::*;

pub mod device;
pub mod frames;
pub mod memory;
pub mod pipeline;
pub mod swapchain;
pub mod upload;

verus! {

/// Number of frame slots that may be in flight at once.
pub const MAX_FRAME_DRAWS: usize = 3;

} // verus!

//! A verified command-recording and cross-queue synchronization core for a
//! Vulkan-style accelerator: it models command buffers as recorded command
//! sequences, constructs the image-memory barriers that carry an image through
//! clear and copy-to-host operations across queue families, and enforces the
//! state-continuity discipline (every barrier's "old" fields must match the
//! state left behind by the previous operation) at the type and contract level.
use vstd::prelude::*;

pub mod barrier;
pub mod command_buffer;
pub mod command_pools;
pub mod cycle;
pub mod families;
pub mod protocol;
pub mod resource;
pub mod utility;

verus! {

/// A queue-family index as exposed by the hardware.
pub type FamilyIndex = u32;

/// An opaque handle standing for a device image resource.
pub type ImageId = u64;

} // verus!

//! The logical state a single image resource moves through: its layout, the
//! access kind its last barrier granted, and the queue family that owns it.
//! Barriers recorded by this crate are the only way these change, so every
//! operation's "old" fields can be checked against the state the previous
//! operation left behind.
use vstd::prelude::*;

verus! {

use crate::FamilyIndex;

/// The image layouts this core transitions a resource through.
#[derive(Clone, Copy, Debug, PartialEq, Eq, Structural)]
pub enum ImageLayout {
    /// Contents are unspecified; transitioning out of this layout discards them.
    Undefined,
    /// Optimal as the destination of a transfer (clear or copy target).
    TransferDstOptimal,
    /// Optimal as the source of a transfer (copy source).
    TransferSrcOptimal,
    /// Linear, driver-independent layout that host reads can interpret.
    General,
}

/// The access kind a barrier makes available or visible. The design only ever
/// uses single-flag masks, so an enum is an exact model.
#[derive(Clone, Copy, Debug, PartialEq, Eq, Structural)]
pub enum Access {
    /// The empty access mask: nothing to make available or visible.
    Empty,
    TransferWrite,
    TransferRead,
    HostRead,
}

/// The pipeline stage a barrier waits on or gates.
#[derive(Clone, Copy, Debug, PartialEq, Eq, Structural)]
pub enum Stage {
    /// The empty stage mask: waits on nothing.
    Empty,
    /// All transfer operations (clears and copies).
    Transfer,
    /// Copy operations only.
    Copy,
    /// Host access to device memory.
    Host,
}

/// A queue-family slot of a barrier: either a concrete family index, or the
/// "ignored" marker that says no ownership transfer takes place.
#[derive(Clone, Copy, Debug, PartialEq, Eq, Structural)]
pub enum FamilyRef {
    Ignored,
    Family(FamilyIndex),
}

/// Who may read or write the resource. At most one family is authoritative at
/// any point; between a release and its matching acquire the resource is in
/// flight and neither side may touch it.
#[derive(Clone, Copy, Debug, PartialEq, Eq, Structural)]
pub enum Owner {
    /// Never used by any queue yet.
    Unowned,
    /// The given family owns the resource for read/write purposes.
    Owned(FamilyIndex),
    /// A release barrier was recorded on `src`'s queue and the matching
    /// acquire on `dst`'s queue is still owed; the acquire must restate
    /// exactly this layout transition.
    TransferPending {
        src: FamilyIndex,
        dst: FamilyIndex,
        old_layout: ImageLayout,
        new_layout: ImageLayout,
    },
}

/// The logical state of one image resource as of the last recorded operation.
#[derive(Clone, Copy, Debug, PartialEq, Eq, Structural)]
pub struct ResourceState {
    pub layout: ImageLayout,
    pub access: Access,
    pub owner: Owner,
}

/// The state of a freshly allocated image no operation has touched yet.
pub open spec fn initial_resource_state() -> ResourceState {
    ResourceState { layout: ImageLayout::Undefined, access: Access::Empty, owner: Owner::Unowned }
}

/// Returns the state of a freshly allocated image.
pub fn fresh_resource_state() -> (r: ResourceState)
    ensures
        r == initial_resource_state(),
{
    ResourceState { layout: ImageLayout::Undefined, access: Access::Empty, owner: Owner::Unowned }
}

/// The image aspects an operation can address; this design only ever touches
/// the color aspect.
#[derive(Clone, Copy, Debug, PartialEq, Eq, Structural)]
pub enum Aspect {
    Color,
}

/// The sub-region of an image a barrier or operation addresses.
#[derive(Clone, Copy, Debug, PartialEq, Eq, Structural)]
pub struct SubresourceRange {
    pub aspect: Aspect,
    pub base_mip_level: u32,
    pub level_count: u32,
    pub base_array_layer: u32,
    pub layer_count: u32,
}

/// The range every operation in this design uses: the whole of a single-mip,
/// single-layer color image.
pub open spec fn spec_full_color_range() -> SubresourceRange {
    SubresourceRange {
        aspect: Aspect::Color,
        base_mip_level: 0,
        level_count: 1,
        base_array_layer: 0,
        layer_count: 1,
    }
}

/// True when the range covers exactly one mip level and one array layer of the
/// color aspect, starting at the base of each.
pub open spec fn is_full_color_range(r: SubresourceRange) -> bool {
    r == spec_full_color_range()
}

/// Returns the full single-mip, single-layer color range.
pub fn full_color_range() -> (r: SubresourceRange)
    ensures
        r == spec_full_color_range(),
{
    SubresourceRange {
        aspect: Aspect::Color,
        base_mip_level: 0,
        level_count: 1,
        base_array_layer: 0,
        layer_count: 1,
    }
}

/// The mip level and layers a copy reads from or writes to.
#[derive(Clone, Copy, Debug, PartialEq, Eq, Structural)]
pub struct SubresourceLayers {
    pub aspect: Aspect,
    pub mip_level: u32,
    pub base_array_layer: u32,
    pub layer_count: u32,
}

/// The single-mip, single-layer color slice every copy in this design uses.
pub open spec fn spec_full_color_layers() -> SubresourceLayers {
    SubresourceLayers { aspect: Aspect::Color, mip_level: 0, base_array_layer: 0, layer_count: 1 }
}

/// Returns the full single-mip, single-layer color slice.
pub fn full_color_layers() -> (r: SubresourceLayers)
    ensures
        r == spec_full_color_layers(),
{
    SubresourceLayers { aspect: Aspect::Color, mip_level: 0, base_array_layer: 0, layer_count: 1 }
}

/// A texel offset into an image.
#[derive(Clone, Copy, Debug, PartialEq, Eq, Structural)]
pub struct Offset3d {
    pub x: i32,
    pub y: i32,
    pub z: i32,
}

/// A region size in texels.
#[derive(Clone, Copy, Debug, PartialEq, Eq, Structural)]
pub struct Extent3d {
    pub width: u32,
    pub height: u32,
    pub depth: u32,
}

/// One region of an image-to-image copy.
#[derive(Clone, Copy, Debug, PartialEq, Eq, Structural)]
pub struct ImageCopyRegion {
    pub src_subresource: SubresourceLayers,
    pub src_offset: Offset3d,
    pub dst_subresource: SubresourceLayers,
    pub dst_offset: Offset3d,
    pub extent: Extent3d,
}

/// The region a full-image copy of a `width` by `height` 2D image uses: zero
/// offsets on both sides and a `width` by `height` by 1 extent.
pub open spec fn spec_full_copy_region(width: u32, height: u32) -> ImageCopyRegion {
    ImageCopyRegion {
        src_subresource: spec_full_color_layers(),
        src_offset: Offset3d { x: 0, y: 0, z: 0 },
        dst_subresource: spec_full_color_layers(),
        dst_offset: Offset3d { x: 0, y: 0, z: 0 },
        extent: Extent3d { width, height, depth: 1 },
    }
}

/// Returns the full-image copy region for a `width` by `height` 2D image.
pub fn full_copy_region(width: u32, height: u32) -> (r: ImageCopyRegion)
    ensures
        r == spec_full_copy_region(width, height),
{
    ImageCopyRegion {
        src_subresource: full_color_layers(),
        src_offset: Offset3d { x: 0, y: 0, z: 0 },
        dst_subresource: full_color_layers(),
        dst_offset: Offset3d { x: 0, y: 0, z: 0 },
        extent: Extent3d { width, height, depth: 1 },
    }
}

/// The constant color a clear fills the image with, as 8-bit channels; the
/// caller converts to whatever channel type the device format expects.
#[derive(Clone, Copy, Debug, PartialEq, Eq, Structural)]
pub struct ClearColor {
    pub r: u8,
    pub g: u8,
    pub b: u8,
    pub a: u8,
}

} // verus!

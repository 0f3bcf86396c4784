//! Image-memory barriers, and one typed constructor per transition kind the
//! design needs (initialize, release, acquire, host-finalize). Each
//! constructor takes the resource state the previous operation left behind
//! and requires that the barrier's "old" fields agree with it, so a barrier
//! with a stale prior state cannot be built.
use vstd::prelude::*;

verus! {

use crate::FamilyIndex;
use crate::ImageId;
use crate::resource::Access;
use crate::resource::FamilyRef;
use crate::resource::ImageLayout;
use crate::resource::Owner;
use crate::resource::ResourceState;
use crate::resource::Stage;
use crate::resource::SubresourceRange;
use crate::resource::full_color_range;
use crate::resource::spec_full_color_range;

/// One image-memory barrier: it waits on `src_stage`, makes `src_access`
/// writes available, transitions the image from `old_layout` to `new_layout`,
/// optionally hands ownership from `src_queue_family` to `dst_queue_family`,
/// and makes the result visible to `dst_access` at `dst_stage`.
#[derive(Clone, Copy, Debug, PartialEq, Eq, Structural)]
pub struct ImageBarrier {
    pub src_stage: Stage,
    pub dst_stage: Stage,
    pub src_access: Access,
    pub dst_access: Access,
    pub old_layout: ImageLayout,
    pub new_layout: ImageLayout,
    pub src_queue_family: FamilyRef,
    pub dst_queue_family: FamilyRef,
    pub image: ImageId,
    pub range: SubresourceRange,
}

/// The barrier that takes an image from its undefined initial layout to the
/// transfer-destination layout, granting transfer-write access; contents are
/// discarded, so it needs no prior state. No ownership changes hands.
pub open spec fn spec_init_transfer_dst_barrier(image: ImageId) -> ImageBarrier {
    ImageBarrier {
        src_stage: Stage::Transfer,
        dst_stage: Stage::Transfer,
        src_access: Access::Empty,
        dst_access: Access::TransferWrite,
        old_layout: ImageLayout::Undefined,
        new_layout: ImageLayout::TransferDstOptimal,
        src_queue_family: FamilyRef::Ignored,
        dst_queue_family: FamilyRef::Ignored,
        image,
        range: spec_full_color_range(),
    }
}

/// Builds the undefined-to-transfer-destination initialization barrier.
pub fn init_transfer_dst_barrier(image: ImageId) -> (b: ImageBarrier)
    ensures
        b == spec_init_transfer_dst_barrier(image),
{
    ImageBarrier {
        src_stage: Stage::Transfer,
        dst_stage: Stage::Transfer,
        src_access: Access::Empty,
        dst_access: Access::TransferWrite,
        old_layout: ImageLayout::Undefined,
        new_layout: ImageLayout::TransferDstOptimal,
        src_queue_family: FamilyRef::Ignored,
        dst_queue_family: FamilyRef::Ignored,
        image,
        range: full_color_range(),
    }
}

/// The copy recorder's variant of the initialization barrier for its
/// destination image: the same undefined-to-transfer-destination transition,
/// but the destination image's first use waits on nothing (empty source
/// stage) and only the copy must be held back (copy destination stage).
pub open spec fn spec_init_copy_dst_barrier(image: ImageId) -> ImageBarrier {
    ImageBarrier {
        src_stage: Stage::Empty,
        dst_stage: Stage::Copy,
        src_access: Access::Empty,
        dst_access: Access::TransferWrite,
        old_layout: ImageLayout::Undefined,
        new_layout: ImageLayout::TransferDstOptimal,
        src_queue_family: FamilyRef::Ignored,
        dst_queue_family: FamilyRef::Ignored,
        image,
        range: spec_full_color_range(),
    }
}

/// Builds the copy destination's initialization barrier.
pub fn init_copy_dst_barrier(image: ImageId) -> (b: ImageBarrier)
    ensures
        b == spec_init_copy_dst_barrier(image),
{
    ImageBarrier {
        src_stage: Stage::Empty,
        dst_stage: Stage::Copy,
        src_access: Access::Empty,
        dst_access: Access::TransferWrite,
        old_layout: ImageLayout::Undefined,
        new_layout: ImageLayout::TransferDstOptimal,
        src_queue_family: FamilyRef::Ignored,
        dst_queue_family: FamilyRef::Ignored,
        image,
        range: full_color_range(),
    }
}

/// The releasing half of the ownership transfer from the clearing family to
/// the copying family: transfer-write becomes transfer-read, the layout moves
/// from transfer-destination to transfer-source, and both family indices are
/// stated explicitly. Recorded on the releasing family's command buffer.
pub open spec fn spec_release_to_transfer_barrier(
    image: ImageId,
    src_family: FamilyIndex,
    dst_family: FamilyIndex,
) -> ImageBarrier {
    ImageBarrier {
        src_stage: Stage::Transfer,
        dst_stage: Stage::Transfer,
        src_access: Access::TransferWrite,
        dst_access: Access::TransferRead,
        old_layout: ImageLayout::TransferDstOptimal,
        new_layout: ImageLayout::TransferSrcOptimal,
        src_queue_family: FamilyRef::Family(src_family),
        dst_queue_family: FamilyRef::Family(dst_family),
        image,
        range: spec_full_color_range(),
    }
}

/// Builds the release barrier. The previous state must be exactly what the
/// clear left behind: transfer-destination layout, transfer-write access,
/// owned by the releasing family.
pub fn release_to_transfer_barrier(
    image: ImageId,
    prev: ResourceState,
    src_family: FamilyIndex,
    dst_family: FamilyIndex,
) -> (b: ImageBarrier)
    requires
        prev.layout is TransferDstOptimal,
        prev.access is TransferWrite,
        prev.owner == Owner::Owned(src_family),
    ensures
        b == spec_release_to_transfer_barrier(image, src_family, dst_family),
        b.old_layout == prev.layout,
        b.src_access == prev.access,
{
    ImageBarrier {
        src_stage: Stage::Transfer,
        dst_stage: Stage::Transfer,
        src_access: Access::TransferWrite,
        dst_access: Access::TransferRead,
        old_layout: ImageLayout::TransferDstOptimal,
        new_layout: ImageLayout::TransferSrcOptimal,
        src_queue_family: FamilyRef::Family(src_family),
        dst_queue_family: FamilyRef::Family(dst_family),
        image,
        range: full_color_range(),
    }
}

/// The acquiring half of the same ownership transfer, recorded on the
/// destination family's command buffer. Per the ownership-transfer protocol
/// its source access mask is empty (writes are not made visible across the
/// transfer, only layout and ownership carry over), its layout fields restate
/// the release's transition exactly, and it gates the copy stage so the copy
/// cannot start before the transfer is visible.
pub open spec fn spec_acquire_from_compute_barrier(
    image: ImageId,
    src_family: FamilyIndex,
    dst_family: FamilyIndex,
) -> ImageBarrier {
    ImageBarrier {
        src_stage: Stage::Transfer,
        dst_stage: Stage::Copy,
        src_access: Access::Empty,
        dst_access: Access::TransferRead,
        old_layout: ImageLayout::TransferDstOptimal,
        new_layout: ImageLayout::TransferSrcOptimal,
        src_queue_family: FamilyRef::Family(src_family),
        dst_queue_family: FamilyRef::Family(dst_family),
        image,
        range: spec_full_color_range(),
    }
}

/// Builds the acquire barrier. The previous state must say that a transfer
/// from `src_family` to `dst_family` is pending with exactly the
/// transfer-destination-to-transfer-source transition the release stated.
pub fn acquire_from_compute_barrier(
    image: ImageId,
    prev: ResourceState,
    src_family: FamilyIndex,
    dst_family: FamilyIndex,
) -> (b: ImageBarrier)
    requires
        prev.owner == (Owner::TransferPending {
            src: src_family,
            dst: dst_family,
            old_layout: ImageLayout::TransferDstOptimal,
            new_layout: ImageLayout::TransferSrcOptimal,
        }),
    ensures
        b == spec_acquire_from_compute_barrier(image, src_family, dst_family),
        b.src_access is Empty,
{
    ImageBarrier {
        src_stage: Stage::Transfer,
        dst_stage: Stage::Copy,
        src_access: Access::Empty,
        dst_access: Access::TransferRead,
        old_layout: ImageLayout::TransferDstOptimal,
        new_layout: ImageLayout::TransferSrcOptimal,
        src_queue_family: FamilyRef::Family(src_family),
        dst_queue_family: FamilyRef::Family(dst_family),
        image,
        range: full_color_range(),
    }
}

/// The barrier that makes the copy destination readable by the host: it waits
/// on transfer writes, moves the image to the general layout (the only layout
/// whose byte layout the host can interpret; transfer-destination-optimal may
/// use device-private tiling) and makes the contents visible to host reads.
/// No ownership changes hands.
pub open spec fn spec_host_read_barrier(image: ImageId) -> ImageBarrier {
    ImageBarrier {
        src_stage: Stage::Transfer,
        dst_stage: Stage::Host,
        src_access: Access::TransferWrite,
        dst_access: Access::HostRead,
        old_layout: ImageLayout::TransferDstOptimal,
        new_layout: ImageLayout::General,
        src_queue_family: FamilyRef::Ignored,
        dst_queue_family: FamilyRef::Ignored,
        image,
        range: spec_full_color_range(),
    }
}

/// Builds the host-finalize barrier. The previous state must be exactly what
/// the copy left behind on its destination: transfer-destination layout with
/// transfer-write access.
pub fn host_read_barrier(image: ImageId, prev: ResourceState) -> (b: ImageBarrier)
    requires
        prev.layout is TransferDstOptimal,
        prev.access is TransferWrite,
        prev.owner is Owned,
    ensures
        b == spec_host_read_barrier(image),
        b.old_layout == prev.layout,
        b.src_access == prev.access,
{
    ImageBarrier {
        src_stage: Stage::Transfer,
        dst_stage: Stage::Host,
        src_access: Access::TransferWrite,
        dst_access: Access::HostRead,
        old_layout: ImageLayout::TransferDstOptimal,
        new_layout: ImageLayout::General,
        src_queue_family: FamilyRef::Ignored,
        dst_queue_family: FamilyRef::Ignored,
        image,
        range: full_color_range(),
    }
}

} // verus!

//! The transfer-family command pool and the copy-to-host recording routine:
//! a single transient pool with one dedicated primary buffer that each cycle
//! records the matching acquire of the target image, the full-extent copy
//! into the host-visible destination, and the barrier that makes the
//! destination readable by the host.
use vstd::prelude::*;

verus! {

use crate::ImageId;
use crate::barrier::ImageBarrier;
use crate::barrier::acquire_from_compute_barrier;
use crate::barrier::host_read_barrier;
use crate::barrier::init_copy_dst_barrier;
use crate::command_buffer::BufferState;
use crate::command_buffer::CommandBuffer;
use crate::command_buffer::CommandBufferV;
use crate::families::QueueFamilies;
use crate::protocol::clear_result_state;
use crate::protocol::copy_dst_result_state;
use crate::protocol::copy_sequence;
use crate::protocol::copy_src_result_state;
use crate::protocol::lemma_copy_sequence_replays;
use crate::protocol::replay_for_image;
use crate::resource::Access;
use crate::resource::ImageLayout;
use crate::resource::Owner;
use crate::resource::ResourceState;
use crate::resource::full_copy_region;

/// The mathematical value of the pool: its one buffer, and whether the pool
/// still exists.
pub struct TransferCommandBufferPoolV {
    pub copy_to_host: CommandBufferV,
    pub alive: bool,
}

/// A transient command pool on the transfer family with one dedicated primary
/// buffer, `copy_to_host`, that holds the recorded copy sequence.
#[derive(Debug)]
pub struct TransferCommandBufferPool {
    copy_to_host: CommandBuffer,
    alive: bool,
}

/// What a pool reset does: the buffer returns to the initial, empty state;
/// nothing else changes. Resetting leaks no state between cycles.
pub open spec fn spec_reset_transfer_pool(
    p: TransferCommandBufferPoolV,
) -> TransferCommandBufferPoolV {
    TransferCommandBufferPoolV {
        copy_to_host: CommandBufferV {
            family: p.copy_to_host.family,
            state: BufferState::Initial,
            cmds: Seq::<crate::command_buffer::CmdV>::empty(),
        },
        alive: p.alive,
    }
}

/// What recording the copy does: it appends exactly the copy sequence to the
/// buffer and leaves it executable.
pub open spec fn spec_record_copy_img_to_host(
    p: TransferCommandBufferPoolV,
    compute_family: u32,
    transfer_family: u32,
    src_image: ImageId,
    dst_image: ImageId,
    width: u32,
    height: u32,
) -> TransferCommandBufferPoolV {
    TransferCommandBufferPoolV {
        copy_to_host: CommandBufferV {
            family: p.copy_to_host.family,
            state: BufferState::Executable,
            cmds: p.copy_to_host.cmds + copy_sequence(
                compute_family,
                transfer_family,
                src_image,
                dst_image,
                width,
                height,
            ),
        },
        alive: p.alive,
    }
}

impl View for TransferCommandBufferPool {
    type V = TransferCommandBufferPoolV;

    closed spec fn view(&self) -> TransferCommandBufferPoolV {
        TransferCommandBufferPoolV { copy_to_host: self.copy_to_host@, alive: self.alive }
    }
}

impl TransferCommandBufferPool {
    /// Creates the pool on the transfer family with its one primary buffer in
    /// the initial state. On the device this allocation can fail; that
    /// failure is fatal and the caller aborts the cycle before any recording
    /// (the cycle driver encodes this).
    pub fn create(queue_families: &QueueFamilies) -> (r: Self)
        ensures
            r@.alive,
            r@.copy_to_host.family == queue_families@.transfer,
            r@.copy_to_host.state is Initial,
            r@.copy_to_host.cmds == Seq::<crate::command_buffer::CmdV>::empty(),
    {
        TransferCommandBufferPool {
            copy_to_host: CommandBuffer::new(queue_families.get_transfer_index()),
            alive: true,
        }
    }

    /// The pool's one buffer, for submission or inspection.
    pub fn copy_to_host(&self) -> (r: &CommandBuffer)
        ensures
            r@ == self@.copy_to_host,
    {
        &self.copy_to_host
    }

    /// Recycles the buffer back to the initial state. The caller must have
    /// made sure no submitted work from this pool is still executing.
    pub fn reset(&mut self)
        requires
            old(self)@.alive,
        ensures
            final(self)@ == spec_reset_transfer_pool(old(self)@),
    {
        self.copy_to_host.reset();
    }

    /// Releases the pool and its buffer. The caller must have made sure the
    /// device is idle with respect to this pool; the pool is destroyed once.
    pub fn destroy_self(&mut self)
        requires
            old(self)@.alive,
        ensures
            final(self)@.alive == false,
            final(self)@.copy_to_host == old(self)@.copy_to_host,
    {
        self.alive = false;
    }

    /// Records the copy sequence into `copy_to_host`: begin with
    /// one-time-submit intent, then in one batching call the acquire of the
    /// source image (the matching half of the release the clear recorded,
    /// gated on the copy stage) and the initialization of the destination to
    /// transfer-destination, then the full-extent copy, then the barrier that
    /// makes the destination host-readable in the general layout, end.
    ///
    /// `src_prev` must be exactly the state the clear sequence left behind —
    /// a transfer pending from the compute family to the transfer family with
    /// the transfer-destination-to-transfer-source transition — which is what
    /// makes the recorded acquire match its release field for field. `dst_prev`
    /// is the destination's state; its first barrier discards contents, so any
    /// prior state is admissible. Returns the two images' states after the
    /// sequence, source first.
    pub fn record_copy_img_to_host(
        &mut self,
        queue_families: &QueueFamilies,
        src_image: ImageId,
        dst_image: ImageId,
        width: u32,
        height: u32,
        src_prev: ResourceState,
        dst_prev: ResourceState,
    ) -> (new_states: (ResourceState, ResourceState))
        requires
            old(self)@.alive,
            old(self)@.copy_to_host.state is Initial,
            queue_families@.compute != queue_families@.transfer,
            src_image != dst_image,
            src_prev == clear_result_state(queue_families@.compute, queue_families@.transfer),
        ensures
            final(self)@ == spec_record_copy_img_to_host(
                old(self)@,
                queue_families@.compute,
                queue_families@.transfer,
                src_image,
                dst_image,
                width,
                height,
            ),
            new_states.0 == copy_src_result_state(queue_families@.transfer),
            new_states.1 == copy_dst_result_state(queue_families@.transfer),
            replay_for_image(
                src_prev,
                queue_families@.transfer,
                copy_sequence(
                    queue_families@.compute,
                    queue_families@.transfer,
                    src_image,
                    dst_image,
                    width,
                    height,
                ),
                src_image,
            ) == Some(new_states.0),
            replay_for_image(
                dst_prev,
                queue_families@.transfer,
                copy_sequence(
                    queue_families@.compute,
                    queue_families@.transfer,
                    src_image,
                    dst_image,
                    width,
                    height,
                ),
                dst_image,
            ) == Some(new_states.1),
    {
        let compute_family = queue_families.get_compute_index();
        let transfer_family = queue_families.get_transfer_index();
        let ghost cmds0 = self.copy_to_host@.cmds;

        self.copy_to_host.begin_one_time_submit();

        // One batching call: the acquire of the source — checked against the
        // pending-transfer state the clear left behind — and the
        // contents-discarding initialization of the destination.
        let mut acquire_batch: Vec<ImageBarrier> = Vec::new();
        acquire_batch.push(
            acquire_from_compute_barrier(src_image, src_prev, compute_family, transfer_family),
        );
        acquire_batch.push(init_copy_dst_barrier(dst_image));
        self.copy_to_host.pipeline_barrier(acquire_batch);

        self.copy_to_host.copy_image(
            src_image,
            ImageLayout::TransferSrcOptimal,
            dst_image,
            ImageLayout::TransferDstOptimal,
            full_copy_region(width, height),
        );

        // The state the initialization barrier and the copy left behind on
        // the destination; the host-finalize constructor checks its old
        // fields against it.
        let after_copy = ResourceState {
            layout: ImageLayout::TransferDstOptimal,
            access: Access::TransferWrite,
            owner: Owner::Owned(transfer_family),
        };
        let mut host_batch: Vec<ImageBarrier> = Vec::new();
        host_batch.push(host_read_barrier(dst_image, after_copy));
        self.copy_to_host.pipeline_barrier(host_batch);

        self.copy_to_host.end();

        proof {
            assert(self.copy_to_host@.cmds =~~= cmds0 + copy_sequence(
                compute_family,
                transfer_family,
                src_image,
                dst_image,
                width,
                height,
            ));
            lemma_copy_sequence_replays(
                compute_family,
                transfer_family,
                src_image,
                dst_image,
                width,
                height,
                dst_prev,
            );
        }
        (
            ResourceState {
                layout: ImageLayout::TransferSrcOptimal,
                access: Access::TransferRead,
                owner: Owner::Owned(transfer_family),
            },
            ResourceState {
                layout: ImageLayout::General,
                access: Access::HostRead,
                owner: Owner::Owned(transfer_family),
            },
        )
    }
}

/// Idempotent pool reuse, copy side: recording into a freshly reset pool
/// yields exactly the copy sequence, whatever the pool held before the
/// reset — two pools reset and re-recorded with the same inputs hold
/// identical command sequences, so no hidden state leaks between cycles.
pub proof fn lemma_copy_recording_deterministic(
    p1: TransferCommandBufferPoolV,
    p2: TransferCommandBufferPoolV,
    compute_family: u32,
    transfer_family: u32,
    src_image: ImageId,
    dst_image: ImageId,
    width: u32,
    height: u32,
)
    ensures
        spec_record_copy_img_to_host(
            spec_reset_transfer_pool(p1),
            compute_family,
            transfer_family,
            src_image,
            dst_image,
            width,
            height,
        ).copy_to_host.cmds == copy_sequence(
            compute_family,
            transfer_family,
            src_image,
            dst_image,
            width,
            height,
        ),
        spec_record_copy_img_to_host(
            spec_reset_transfer_pool(p1),
            compute_family,
            transfer_family,
            src_image,
            dst_image,
            width,
            height,
        ).copy_to_host.cmds == spec_record_copy_img_to_host(
            spec_reset_transfer_pool(p2),
            compute_family,
            transfer_family,
            src_image,
            dst_image,
            width,
            height,
        ).copy_to_host.cmds,
{
    assert(Seq::<crate::command_buffer::CmdV>::empty() + copy_sequence(
        compute_family,
        transfer_family,
        src_image,
        dst_image,
        width,
        height,
    ) =~= copy_sequence(compute_family, transfer_family, src_image, dst_image, width, height));
}

} // verus!

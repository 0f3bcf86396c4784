//! The compute-family command pool and the clear-image recording routine: a
//! single transient pool with one dedicated primary buffer that each cycle
//! records the begin / initialize / clear / release / end sequence handing
//! the target image over to the transfer family.
use vstd::prelude::*;

verus! {

use crate::ImageId;
use crate::barrier::ImageBarrier;
use crate::barrier::init_transfer_dst_barrier;
use crate::barrier::release_to_transfer_barrier;
use crate::command_buffer::BufferState;
use crate::command_buffer::CommandBuffer;
use crate::command_buffer::CommandBufferV;
use crate::families::QueueFamilies;
use crate::protocol::clear_result_state;
use crate::protocol::clear_sequence;
use crate::protocol::lemma_clear_sequence_replays;
use crate::protocol::replay_for_image;
use crate::resource::Access;
use crate::resource::ClearColor;
use crate::resource::ImageLayout;
use crate::resource::Owner;
use crate::resource::ResourceState;
use crate::resource::full_color_range;

/// The mathematical value of the pool: its one buffer, and whether the pool
/// still exists.
pub struct ComputeCommandBufferPoolV {
    pub clear_img: CommandBufferV,
    pub alive: bool,
}

/// A transient command pool on the compute family with one dedicated primary
/// buffer, `clear_img`, that holds the recorded clear sequence.
#[derive(Debug)]
pub struct ComputeCommandBufferPool {
    clear_img: CommandBuffer,
    alive: bool,
}

/// What a pool reset does: the buffer returns to the initial, empty state;
/// nothing else changes. Resetting leaks no state between cycles.
pub open spec fn spec_reset_compute_pool(p: ComputeCommandBufferPoolV) -> ComputeCommandBufferPoolV {
    ComputeCommandBufferPoolV {
        clear_img: CommandBufferV {
            family: p.clear_img.family,
            state: BufferState::Initial,
            cmds: Seq::<crate::command_buffer::CmdV>::empty(),
        },
        alive: p.alive,
    }
}

/// What recording the clear does: it appends exactly the clear sequence to
/// the buffer and leaves it executable.
pub open spec fn spec_record_clear_img(
    p: ComputeCommandBufferPoolV,
    compute_family: u32,
    transfer_family: u32,
    image: ImageId,
    color: ClearColor,
) -> ComputeCommandBufferPoolV {
    ComputeCommandBufferPoolV {
        clear_img: CommandBufferV {
            family: p.clear_img.family,
            state: BufferState::Executable,
            cmds: p.clear_img.cmds + clear_sequence(compute_family, transfer_family, image, color),
        },
        alive: p.alive,
    }
}

impl View for ComputeCommandBufferPool {
    type V = ComputeCommandBufferPoolV;

    closed spec fn view(&self) -> ComputeCommandBufferPoolV {
        ComputeCommandBufferPoolV { clear_img: self.clear_img@, alive: self.alive }
    }
}

impl ComputeCommandBufferPool {
    /// Creates the pool on the compute family with its one primary buffer in
    /// the initial state. On the device this allocation can fail; that
    /// failure is fatal and the caller aborts the cycle before any recording
    /// (the cycle driver encodes this).
    pub fn create(queue_families: &QueueFamilies) -> (r: Self)
        ensures
            r@.alive,
            r@.clear_img.family == queue_families@.compute,
            r@.clear_img.state is Initial,
            r@.clear_img.cmds == Seq::<crate::command_buffer::CmdV>::empty(),
    {
        ComputeCommandBufferPool {
            clear_img: CommandBuffer::new(queue_families.get_compute_index()),
            alive: true,
        }
    }

    /// The pool's one buffer, for submission or inspection.
    pub fn clear_img(&self) -> (r: &CommandBuffer)
        ensures
            r@ == self@.clear_img,
    {
        &self.clear_img
    }

    /// Recycles the buffer back to the initial state. The caller must have
    /// made sure no submitted work from this pool is still executing.
    pub fn reset(&mut self)
        requires
            old(self)@.alive,
        ensures
            final(self)@ == spec_reset_compute_pool(old(self)@),
    {
        self.clear_img.reset();
    }

    /// Releases the pool and its buffer. The caller must have made sure the
    /// device is idle with respect to this pool; the pool is destroyed once.
    pub fn destroy_self(&mut self)
        requires
            old(self)@.alive,
        ensures
            final(self)@.alive == false,
            final(self)@.clear_img == old(self)@.clear_img,
    {
        self.alive = false;
    }

    /// Records the clear sequence into `clear_img`: begin with one-time-submit
    /// intent, transition the target from its undefined initial layout to
    /// transfer-destination, clear it to `color` over the full color
    /// subresource, release its ownership to the transfer family, end.
    ///
    /// `prev` is the target's state as of the last recorded operation; the
    /// sequence discards the image's contents, so any prior state is
    /// admissible and the recorded commands replay from it without an
    /// impossible transition. The returned state is the one the sequence
    /// leaves behind, to be handed to the copy recorder.
    pub fn record_clear_img(
        &mut self,
        queue_families: &QueueFamilies,
        image: ImageId,
        prev: ResourceState,
        color: ClearColor,
    ) -> (new_state: ResourceState)
        requires
            old(self)@.alive,
            old(self)@.clear_img.state is Initial,
        ensures
            final(self)@ == spec_record_clear_img(
                old(self)@,
                queue_families@.compute,
                queue_families@.transfer,
                image,
                color,
            ),
            new_state == clear_result_state(queue_families@.compute, queue_families@.transfer),
            replay_for_image(
                prev,
                queue_families@.compute,
                clear_sequence(queue_families@.compute, queue_families@.transfer, image, color),
                image,
            ) == Some(new_state),
    {
        let compute_family = queue_families.get_compute_index();
        let transfer_family = queue_families.get_transfer_index();
        let ghost cmds0 = self.clear_img@.cmds;

        self.clear_img.begin_one_time_submit();

        let mut init_batch: Vec<ImageBarrier> = Vec::new();
        init_batch.push(init_transfer_dst_barrier(image));
        self.clear_img.pipeline_barrier(init_batch);

        self.clear_img.clear_color_image(
            image,
            ImageLayout::TransferDstOptimal,
            color,
            full_color_range(),
        );

        // The state the initialization barrier and the clear left behind; the
        // release constructor checks its old fields against it.
        let after_clear = ResourceState {
            layout: ImageLayout::TransferDstOptimal,
            access: Access::TransferWrite,
            owner: Owner::Owned(compute_family),
        };
        let mut release_batch: Vec<ImageBarrier> = Vec::new();
        release_batch.push(
            release_to_transfer_barrier(image, after_clear, compute_family, transfer_family),
        );
        self.clear_img.pipeline_barrier(release_batch);

        self.clear_img.end();

        proof {
            assert(self.clear_img@.cmds =~~= cmds0 + clear_sequence(
                compute_family,
                transfer_family,
                image,
                color,
            ));
            lemma_clear_sequence_replays(compute_family, transfer_family, image, color, prev);
        }
        if compute_family == transfer_family {
            ResourceState {
                layout: ImageLayout::TransferSrcOptimal,
                access: Access::TransferRead,
                owner: Owner::Owned(compute_family),
            }
        } else {
            ResourceState {
                layout: ImageLayout::TransferSrcOptimal,
                access: Access::Empty,
                owner: Owner::TransferPending {
                    src: compute_family,
                    dst: transfer_family,
                    old_layout: ImageLayout::TransferDstOptimal,
                    new_layout: ImageLayout::TransferSrcOptimal,
                },
            }
        }
    }
}

/// Idempotent pool reuse, clear side: recording into a freshly reset pool
/// yields exactly the clear sequence, whatever the pool held before the
/// reset — two pools reset and re-recorded with the same inputs hold
/// identical command sequences, so no hidden state leaks between cycles.
pub proof fn lemma_clear_recording_deterministic(
    p1: ComputeCommandBufferPoolV,
    p2: ComputeCommandBufferPoolV,
    compute_family: u32,
    transfer_family: u32,
    image: ImageId,
    color: ClearColor,
)
    ensures
        spec_record_clear_img(
            spec_reset_compute_pool(p1),
            compute_family,
            transfer_family,
            image,
            color,
        ).clear_img.cmds == clear_sequence(compute_family, transfer_family, image, color),
        spec_record_clear_img(
            spec_reset_compute_pool(p1),
            compute_family,
            transfer_family,
            image,
            color,
        ).clear_img.cmds == spec_record_clear_img(
            spec_reset_compute_pool(p2),
            compute_family,
            transfer_family,
            image,
            color,
        ).clear_img.cmds,
{
    assert(Seq::<crate::command_buffer::CmdV>::empty() + clear_sequence(
        compute_family,
        transfer_family,
        image,
        color,
    ) =~= clear_sequence(compute_family, transfer_family, image, color));
}

} // verus!

//! A command buffer modeled as the sequence of commands recorded into it,
//! together with its lifecycle state. Recording must be one unbroken
//! begin-to-end run: every recording method requires the state the previous
//! one left behind, and a buffer is submittable only once it is executable.
use vstd::prelude::*;

verus! {

use crate::FamilyIndex;
use crate::ImageId;
use crate::barrier::ImageBarrier;
use crate::resource::ClearColor;
use crate::resource::ImageCopyRegion;
use crate::resource::ImageLayout;
use crate::resource::SubresourceRange;

/// One recorded command.
#[derive(Clone, Debug, PartialEq, Eq)]
pub enum Cmd {
    /// Recording started; `one_time_submit` marks the buffer as submitted at
    /// most once before its next reset.
    Begin { one_time_submit: bool },
    /// One batching call that records all the given barriers together.
    PipelineBarrier { barriers: Vec<ImageBarrier> },
    /// Fill the given sub-range of the image, which must currently be in
    /// `layout`, with a constant color.
    ClearColorImage { image: ImageId, layout: ImageLayout, color: ClearColor, range: SubresourceRange },
    /// Copy one region from a source image to a destination image, each in
    /// the stated layout.
    CopyImage {
        src_image: ImageId,
        src_layout: ImageLayout,
        dst_image: ImageId,
        dst_layout: ImageLayout,
        region: ImageCopyRegion,
    },
    /// Recording finished; the buffer becomes executable.
    End,
}

/// The mathematical value of a recorded command: the same shape as [`Cmd`]
/// with the barrier batch as a sequence.
#[verifier::ext_equal]
pub enum CmdV {
    Begin { one_time_submit: bool },
    PipelineBarrier { barriers: Seq<ImageBarrier> },
    ClearColorImage { image: ImageId, layout: ImageLayout, color: ClearColor, range: SubresourceRange },
    CopyImage {
        src_image: ImageId,
        src_layout: ImageLayout,
        dst_image: ImageId,
        dst_layout: ImageLayout,
        region: ImageCopyRegion,
    },
    End,
}

impl View for Cmd {
    type V = CmdV;

    open spec fn view(&self) -> CmdV {
        match self {
            Cmd::Begin { one_time_submit } => CmdV::Begin { one_time_submit: *one_time_submit },
            Cmd::PipelineBarrier { barriers } => CmdV::PipelineBarrier { barriers: barriers@ },
            Cmd::ClearColorImage { image, layout, color, range } => CmdV::ClearColorImage {
                image: *image,
                layout: *layout,
                color: *color,
                range: *range,
            },
            Cmd::CopyImage { src_image, src_layout, dst_image, dst_layout, region } => CmdV::CopyImage {
                src_image: *src_image,
                src_layout: *src_layout,
                dst_image: *dst_image,
                dst_layout: *dst_layout,
                region: *region,
            },
            Cmd::End => CmdV::End,
        }
    }
}

/// The lifecycle state of a command buffer. A freshly allocated or reset
/// buffer is `Initial`; `begin` moves it to `Recording`; `end` moves it to
/// `Executable`, the only state in which it may be submitted. A failure to
/// reach `end` leaves the buffer unusable until the owning pool is reset.
#[derive(Clone, Copy, Debug, PartialEq, Eq, Structural)]
pub enum BufferState {
    Initial,
    Recording,
    Executable,
}

/// The mathematical value of a command buffer.
pub struct CommandBufferV {
    /// The queue family of the pool the buffer was allocated from; commands
    /// recorded here execute on a queue of this family.
    pub family: FamilyIndex,
    pub state: BufferState,
    pub cmds: Seq<CmdV>,
}

/// A primary command buffer scoped to one queue family, modeled by the
/// sequence of commands recorded into it since its last reset.
#[derive(Debug)]
pub struct CommandBuffer {
    family: FamilyIndex,
    state: BufferState,
    cmds: Vec<Cmd>,
}

impl View for CommandBuffer {
    type V = CommandBufferV;

    closed spec fn view(&self) -> CommandBufferV {
        CommandBufferV {
            family: self.family,
            state: self.state,
            cmds: self.cmds@.map_values(|c: Cmd| c@),
        }
    }
}

impl CommandBuffer {
    /// Allocates a fresh buffer in the initial state, scoped to `family`.
    pub fn new(family: FamilyIndex) -> (r: Self)
        ensures
            r@.family == family,
            r@.state is Initial,
            r@.cmds == Seq::<CmdV>::empty(),
    {
        let r = CommandBuffer { family, state: BufferState::Initial, cmds: Vec::new() };
        proof {
            assert(r@.cmds =~= Seq::<CmdV>::empty());
        }
        r
    }

    /// The queue family the buffer records for.
    pub fn family(&self) -> (r: FamilyIndex)
        ensures
            r == self@.family,
    {
        self.family
    }

    /// The buffer's lifecycle state.
    pub fn state(&self) -> (r: BufferState)
        ensures
            r == self@.state,
    {
        self.state
    }

    /// The commands recorded since the last reset, in order.
    pub fn commands(&self) -> (r: &Vec<Cmd>)
        ensures
            r@.map_values(|c: Cmd| c@) == self@.cmds,
    {
        &self.cmds
    }

    /// Recycles the buffer to the initial, empty state, as the owning pool's
    /// reset does. The caller must have made sure no submitted work that uses
    /// this buffer is still executing.
    pub fn reset(&mut self)
        ensures
            final(self)@.family == old(self)@.family,
            final(self)@.state is Initial,
            final(self)@.cmds == Seq::<CmdV>::empty(),
    {
        self.state = BufferState::Initial;
        self.cmds = Vec::new();
        proof {
            assert(self@.cmds =~= Seq::<CmdV>::empty());
        }
    }

    /// Starts recording with one-time-submit intent. Only a buffer in the
    /// initial state may begin recording.
    pub fn begin_one_time_submit(&mut self)
        requires
            old(self)@.state is Initial,
        ensures
            final(self)@.family == old(self)@.family,
            final(self)@.state is Recording,
            final(self)@.cmds == old(self)@.cmds.push(CmdV::Begin { one_time_submit: true }),
    {
        self.state = BufferState::Recording;
        let c = Cmd::Begin { one_time_submit: true };
        proof {
            assert(self.cmds@.push(c).map_values(|x: Cmd| x@) =~= self.cmds@.map_values(
                |x: Cmd| x@,
            ).push(c@));
        }
        self.cmds.push(c);
    }

    /// Records one batching barrier call containing all the given barriers.
    pub fn pipeline_barrier(&mut self, barriers: Vec<ImageBarrier>)
        requires
            old(self)@.state is Recording,
        ensures
            final(self)@.family == old(self)@.family,
            final(self)@.state is Recording,
            final(self)@.cmds == old(self)@.cmds.push(
                CmdV::PipelineBarrier { barriers: barriers@ },
            ),
    {
        let c = Cmd::PipelineBarrier { barriers };
        proof {
            assert(self.cmds@.push(c).map_values(|x: Cmd| x@) =~= self.cmds@.map_values(
                |x: Cmd| x@,
            ).push(c@));
        }
        self.cmds.push(c);
    }

    /// Records a clear of `range` of `image`, which must be in `layout`, to
    /// the constant `color`.
    pub fn clear_color_image(
        &mut self,
        image: ImageId,
        layout: ImageLayout,
        color: ClearColor,
        range: SubresourceRange,
    )
        requires
            old(self)@.state is Recording,
        ensures
            final(self)@.family == old(self)@.family,
            final(self)@.state is Recording,
            final(self)@.cmds == old(self)@.cmds.push(
                CmdV::ClearColorImage { image, layout, color, range },
            ),
    {
        let c = Cmd::ClearColorImage { image, layout, color, range };
        proof {
            assert(self.cmds@.push(c).map_values(|x: Cmd| x@) =~= self.cmds@.map_values(
                |x: Cmd| x@,
            ).push(c@));
        }
        self.cmds.push(c);
    }

    /// Records a copy of `region` from `src_image` (in `src_layout`) to
    /// `dst_image` (in `dst_layout`).
    pub fn copy_image(
        &mut self,
        src_image: ImageId,
        src_layout: ImageLayout,
        dst_image: ImageId,
        dst_layout: ImageLayout,
        region: ImageCopyRegion,
    )
        requires
            old(self)@.state is Recording,
        ensures
            final(self)@.family == old(self)@.family,
            final(self)@.state is Recording,
            final(self)@.cmds == old(self)@.cmds.push(
                CmdV::CopyImage { src_image, src_layout, dst_image, dst_layout, region },
            ),
    {
        let c = Cmd::CopyImage { src_image, src_layout, dst_image, dst_layout, region };
        proof {
            assert(self.cmds@.push(c).map_values(|x: Cmd| x@) =~= self.cmds@.map_values(
                |x: Cmd| x@,
            ).push(c@));
        }
        self.cmds.push(c);
    }

    /// Finishes recording; the buffer becomes executable and is then safe to
    /// submit exactly once.
    pub fn end(&mut self)
        requires
            old(self)@.state is Recording,
        ensures
            final(self)@.family == old(self)@.family,
            final(self)@.state is Executable,
            final(self)@.cmds == old(self)@.cmds.push(CmdV::End),
    {
        self.state = BufferState::Executable;
        let c = Cmd::End;
        proof {
            assert(self.cmds@.push(c).map_values(|x: Cmd| x@) =~= self.cmds@.map_values(
                |x: Cmd| x@,
            ).push(c@));
        }
        self.cmds.push(c);
    }
}

} // verus!

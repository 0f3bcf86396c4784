//! The synchronization protocol itself: the exact command sequences the two
//! recorders produce, and a replay semantics that walks a recorded sequence
//! as a state machine over one image's `ResourceState`. A step returns `None`
//! exactly when the sequence would ask the device for an impossible
//! transition — an "old" field that no earlier operation's "new" fields
//! establish, an acquire of an ownership the releasing side never released,
//! or a non-empty source access on an acquire barrier.
use vstd::prelude::*;

verus! {

use crate::FamilyIndex;
use crate::ImageId;
use crate::barrier::ImageBarrier;
use crate::barrier::spec_acquire_from_compute_barrier;
use crate::barrier::spec_host_read_barrier;
use crate::barrier::spec_init_copy_dst_barrier;
use crate::barrier::spec_init_transfer_dst_barrier;
use crate::barrier::spec_release_to_transfer_barrier;
use crate::command_buffer::CmdV;
use crate::resource::Access;
use crate::resource::ClearColor;
use crate::resource::FamilyRef;
use crate::resource::ImageLayout;
use crate::resource::Offset3d;
use crate::resource::Owner;
use crate::resource::ResourceState;
use crate::resource::initial_resource_state;
use crate::resource::is_full_color_range;
use crate::resource::spec_full_color_layers;
use crate::resource::spec_full_color_range;
use crate::resource::spec_full_copy_region;

/// The exact sequence the clear recorder writes into the compute-family
/// buffer: begin with one-time-submit intent, initialize the target to the
/// transfer-destination layout, clear it to the constant color, release its
/// ownership to the transfer family, end.
pub open spec fn clear_sequence(
    compute_family: FamilyIndex,
    transfer_family: FamilyIndex,
    image: ImageId,
    color: ClearColor,
) -> Seq<CmdV> {
    seq![
        CmdV::Begin { one_time_submit: true },
        CmdV::PipelineBarrier { barriers: seq![spec_init_transfer_dst_barrier(image)] },
        CmdV::ClearColorImage {
            image,
            layout: ImageLayout::TransferDstOptimal,
            color,
            range: spec_full_color_range(),
        },
        CmdV::PipelineBarrier {
            barriers: seq![
                spec_release_to_transfer_barrier(image, compute_family, transfer_family),
            ],
        },
        CmdV::End,
    ]
}

/// The exact sequence the copy recorder writes into the transfer-family
/// buffer: begin, one batching barrier call holding the acquire of the source
/// and the initialization of the destination, the full-extent copy, the
/// barrier that makes the destination host-readable, end.
pub open spec fn copy_sequence(
    compute_family: FamilyIndex,
    transfer_family: FamilyIndex,
    src_image: ImageId,
    dst_image: ImageId,
    width: u32,
    height: u32,
) -> Seq<CmdV> {
    seq![
        CmdV::Begin { one_time_submit: true },
        CmdV::PipelineBarrier {
            barriers: seq![
                spec_acquire_from_compute_barrier(src_image, compute_family, transfer_family),
                spec_init_copy_dst_barrier(dst_image),
            ],
        },
        CmdV::CopyImage {
            src_image,
            src_layout: ImageLayout::TransferSrcOptimal,
            dst_image,
            dst_layout: ImageLayout::TransferDstOptimal,
            region: spec_full_copy_region(width, height),
        },
        CmdV::PipelineBarrier { barriers: seq![spec_host_read_barrier(dst_image)] },
        CmdV::End,
    ]
}

/// One barrier applied to the state of its image, executing on a queue of
/// `family`. `None` is an impossible transition.
pub open spec fn barrier_step(
    st: ResourceState,
    family: FamilyIndex,
    b: ImageBarrier,
) -> Option<ResourceState> {
    if b.src_queue_family == b.dst_queue_family {
        // No ownership transfer: the slots are both ignored or name the same
        // family, which must then be the executing one.
        let family_ok = match b.src_queue_family {
            FamilyRef::Ignored => true,
            FamilyRef::Family(f) => f == family,
        };
        if !family_ok {
            None
        } else if b.old_layout is Undefined {
            // Transitioning out of the undefined layout discards the
            // contents, so it needs no prior state — and has no prior writes
            // to make available, so its source access mask must be empty.
            if b.src_access is Empty {
                Some(
                    ResourceState {
                        layout: b.new_layout,
                        access: b.dst_access,
                        owner: Owner::Owned(family),
                    },
                )
            } else {
                None
            }
        } else {
            // A content-preserving transition: the barrier's old fields must
            // be exactly the state the last operation left behind, and the
            // executing family must own the resource.
            if st.owner == Owner::Owned(family) && b.old_layout == st.layout && b.src_access
                == st.access {
                Some(
                    ResourceState {
                        layout: b.new_layout,
                        access: b.dst_access,
                        owner: Owner::Owned(family),
                    },
                )
            } else {
                None
            }
        }
    } else {
        match (b.src_queue_family, b.dst_queue_family) {
            (FamilyRef::Family(s), FamilyRef::Family(d)) => {
                if family == s {
                    // The releasing half: recorded on the source family's
                    // queue, which must own the resource in exactly the
                    // barrier's old state. Afterwards the resource is in
                    // flight: no access is visible until the acquire.
                    if st.owner == Owner::Owned(s) && b.old_layout == st.layout && b.src_access
                        == st.access {
                        Some(
                            ResourceState {
                                layout: b.new_layout,
                                access: Access::Empty,
                                owner: Owner::TransferPending {
                                    src: s,
                                    dst: d,
                                    old_layout: b.old_layout,
                                    new_layout: b.new_layout,
                                },
                            },
                        )
                    } else {
                        None
                    }
                } else if family == d {
                    // The acquiring half: a matching release must be pending
                    // with field-for-field the same transition, and the
                    // source access mask must be empty — prior writes are not
                    // visible across the transfer itself.
                    if st.owner == (Owner::TransferPending {
                        src: s,
                        dst: d,
                        old_layout: b.old_layout,
                        new_layout: b.new_layout,
                    }) && b.src_access is Empty {
                        Some(
                            ResourceState {
                                layout: b.new_layout,
                                access: b.dst_access,
                                owner: Owner::Owned(d),
                            },
                        )
                    } else {
                        None
                    }
                } else {
                    None
                }
            },
            // A pairing of one ignored and one explicit family is malformed.
            _ => None,
        }
    }
}

/// Folds `barrier_step` over one batching call's barriers, touching only
/// those aimed at `img`.
pub open spec fn barriers_step_for_image(
    st: ResourceState,
    family: FamilyIndex,
    bs: Seq<ImageBarrier>,
    img: ImageId,
) -> Option<ResourceState>
    decreases bs.len(),
{
    if bs.len() == 0 {
        Some(st)
    } else if bs[0].image == img {
        match barrier_step(st, family, bs[0]) {
            Some(st2) => barriers_step_for_image(st2, family, bs.drop_first(), img),
            None => None,
        }
    } else {
        barriers_step_for_image(st, family, bs.drop_first(), img)
    }
}

/// One command applied to the state of image `img`, executing on a queue of
/// `family`. Operations demand the layout, access and ownership their device
/// semantics require; commands that do not touch `img` leave its state alone.
pub open spec fn cmd_step_for_image(
    st: ResourceState,
    family: FamilyIndex,
    c: CmdV,
    img: ImageId,
) -> Option<ResourceState> {
    match c {
        CmdV::Begin { one_time_submit } => Some(st),
        CmdV::End => Some(st),
        CmdV::PipelineBarrier { barriers } => barriers_step_for_image(st, family, barriers, img),
        CmdV::ClearColorImage { image, layout, color, range } => {
            if image == img {
                // A clear writes through the transfer stage: the image must be
                // owned here, in the stated transfer-destination layout, with
                // transfer-write access made visible by an earlier barrier.
                if st.owner == Owner::Owned(family) && layout == st.layout
                    && st.layout is TransferDstOptimal && st.access is TransferWrite {
                    Some(st)
                } else {
                    None
                }
            } else {
                Some(st)
            }
        },
        CmdV::CopyImage { src_image, src_layout, dst_image, dst_layout, region } => {
            if src_image == img && dst_image == img {
                None
            } else if src_image == img {
                if st.owner == Owner::Owned(family) && src_layout == st.layout
                    && st.layout is TransferSrcOptimal && st.access is TransferRead {
                    Some(st)
                } else {
                    None
                }
            } else if dst_image == img {
                if st.owner == Owner::Owned(family) && dst_layout == st.layout
                    && st.layout is TransferDstOptimal && st.access is TransferWrite {
                    Some(st)
                } else {
                    None
                }
            } else {
                Some(st)
            }
        },
    }
}

/// Replays a recorded sequence, executing on a queue of `family`, as a state
/// machine over image `img`. `Some` means no step asked for an impossible
/// transition; the result is the image's state after the whole sequence.
pub open spec fn replay_for_image(
    st: ResourceState,
    family: FamilyIndex,
    cmds: Seq<CmdV>,
    img: ImageId,
) -> Option<ResourceState>
    decreases cmds.len(),
{
    if cmds.len() == 0 {
        Some(st)
    } else {
        match cmd_step_for_image(st, family, cmds[0], img) {
            Some(st2) => replay_for_image(st2, family, cmds.drop_first(), img),
            None => None,
        }
    }
}

/// The target image's state after the clear sequence: transfer-source layout,
/// released to the transfer family (ownership in flight until the matching
/// acquire) — or, where the two roles alias to one family, simply still owned
/// by it with transfer-read access.
pub open spec fn clear_result_state(
    compute_family: FamilyIndex,
    transfer_family: FamilyIndex,
) -> ResourceState {
    if compute_family == transfer_family {
        ResourceState {
            layout: ImageLayout::TransferSrcOptimal,
            access: Access::TransferRead,
            owner: Owner::Owned(compute_family),
        }
    } else {
        ResourceState {
            layout: ImageLayout::TransferSrcOptimal,
            access: Access::Empty,
            owner: Owner::TransferPending {
                src: compute_family,
                dst: transfer_family,
                old_layout: ImageLayout::TransferDstOptimal,
                new_layout: ImageLayout::TransferSrcOptimal,
            },
        }
    }
}

/// The source image's state after the copy sequence: acquired by the transfer
/// family, readable as a transfer source.
pub open spec fn copy_src_result_state(transfer_family: FamilyIndex) -> ResourceState {
    ResourceState {
        layout: ImageLayout::TransferSrcOptimal,
        access: Access::TransferRead,
        owner: Owner::Owned(transfer_family),
    }
}

/// The destination image's state after the copy sequence: general layout,
/// visible to host reads, owned by the transfer family.
pub open spec fn copy_dst_result_state(transfer_family: FamilyIndex) -> ResourceState {
    ResourceState {
        layout: ImageLayout::General,
        access: Access::HostRead,
        owner: Owner::Owned(transfer_family),
    }
}

/// State continuity for the clear sequence: from any prior state of the
/// target (its first barrier discards contents), replaying the sequence on
/// the compute family reaches no impossible transition and leaves the target
/// released to the transfer family.
pub proof fn lemma_clear_sequence_replays(
    compute_family: FamilyIndex,
    transfer_family: FamilyIndex,
    image: ImageId,
    color: ClearColor,
    prev: ResourceState,
)
    ensures
        replay_for_image(
            prev,
            compute_family,
            clear_sequence(compute_family, transfer_family, image, color),
            image,
        ) == Some(clear_result_state(compute_family, transfer_family)),
{
    reveal_with_fuel(replay_for_image, 7);
    reveal_with_fuel(barriers_step_for_image, 4);
}

/// State continuity for the copy sequence: starting from exactly the state
/// the clear left behind on the source (the pending transfer) and any prior
/// state of the destination (its first barrier discards contents), replaying
/// the sequence on the transfer family reaches no impossible transition. The
/// source ends owned by the transfer family, the destination host-readable.
pub proof fn lemma_copy_sequence_replays(
    compute_family: FamilyIndex,
    transfer_family: FamilyIndex,
    src_image: ImageId,
    dst_image: ImageId,
    width: u32,
    height: u32,
    dst_prev: ResourceState,
)
    requires
        compute_family != transfer_family,
        src_image != dst_image,
    ensures
        replay_for_image(
            clear_result_state(compute_family, transfer_family),
            transfer_family,
            copy_sequence(compute_family, transfer_family, src_image, dst_image, width, height),
            src_image,
        ) == Some(copy_src_result_state(transfer_family)),
        replay_for_image(
            dst_prev,
            transfer_family,
            copy_sequence(compute_family, transfer_family, src_image, dst_image, width, height),
            dst_image,
        ) == Some(copy_dst_result_state(transfer_family)),
{
    reveal_with_fuel(replay_for_image, 7);
    reveal_with_fuel(barriers_step_for_image, 4);
}

/// State continuity over the whole cycle: the clear sequence then the copy
/// sequence, replayed in program order from freshly allocated images, never
/// reach an impossible transition, for either image.
pub proof fn lemma_cycle_state_continuity(
    compute_family: FamilyIndex,
    transfer_family: FamilyIndex,
    target: ImageId,
    dest: ImageId,
    color: ClearColor,
    width: u32,
    height: u32,
)
    requires
        compute_family != transfer_family,
        target != dest,
    ensures
        ({
            let after_clear = replay_for_image(
                initial_resource_state(),
                compute_family,
                clear_sequence(compute_family, transfer_family, target, color),
                target,
            );
            &&& after_clear == Some(clear_result_state(compute_family, transfer_family))
            &&& replay_for_image(
                after_clear.unwrap(),
                transfer_family,
                copy_sequence(compute_family, transfer_family, target, dest, width, height),
                target,
            ) == Some(copy_src_result_state(transfer_family))
        }),
        replay_for_image(
            initial_resource_state(),
            transfer_family,
            copy_sequence(compute_family, transfer_family, target, dest, width, height),
            dest,
        ) == Some(copy_dst_result_state(transfer_family)),
{
    lemma_clear_sequence_replays(
        compute_family,
        transfer_family,
        target,
        color,
        initial_resource_state(),
    );
    lemma_copy_sequence_replays(
        compute_family,
        transfer_family,
        target,
        dest,
        width,
        height,
        initial_resource_state(),
    );
}

/// Ownership conservation: the transfer of the target between the two
/// families appears as a matched release/acquire pair — identical old and new
/// layouts and identical source and destination families on both halves, with
/// an empty source access mask on the acquire — and after the cycle the
/// target is owned by exactly the acquiring family.
pub proof fn lemma_ownership_transfer_matched(
    compute_family: FamilyIndex,
    transfer_family: FamilyIndex,
    target: ImageId,
    dest: ImageId,
    color: ClearColor,
    width: u32,
    height: u32,
)
    requires
        compute_family != transfer_family,
        target != dest,
    ensures
        ({
            let release = spec_release_to_transfer_barrier(target, compute_family, transfer_family);
            let acquire = spec_acquire_from_compute_barrier(target, compute_family, transfer_family);
            // the clear buffer records the release, the copy buffer the acquire
            &&& clear_sequence(compute_family, transfer_family, target, color)[3]
                == (CmdV::PipelineBarrier { barriers: seq![release] })
            &&& copy_sequence(compute_family, transfer_family, target, dest, width, height)[1]
                == (CmdV::PipelineBarrier {
                barriers: seq![acquire, spec_init_copy_dst_barrier(dest)],
            })
            // both halves state field-for-field the same transfer
            &&& acquire.old_layout == release.old_layout
            &&& acquire.new_layout == release.new_layout
            &&& acquire.src_queue_family == release.src_queue_family
            &&& acquire.dst_queue_family == release.dst_queue_family
            &&& acquire.src_access is Empty
        }),
        // afterwards the last acquirer is the single owner
        ({
            let after_clear = replay_for_image(
                initial_resource_state(),
                compute_family,
                clear_sequence(compute_family, transfer_family, target, color),
                target,
            );
            replay_for_image(
                after_clear.unwrap(),
                transfer_family,
                copy_sequence(compute_family, transfer_family, target, dest, width, height),
                target,
            ) == Some(copy_src_result_state(transfer_family)) && copy_src_result_state(
                transfer_family,
            ).owner == Owner::Owned(transfer_family)
        }),
{
    lemma_cycle_state_continuity(
        compute_family,
        transfer_family,
        target,
        dest,
        color,
        width,
        height,
    );
}

/// True when every sub-region the command addresses is the full single-mip,
/// single-layer color subresource.
pub open spec fn cmd_full_coverage(c: CmdV) -> bool {
    match c {
        CmdV::Begin { one_time_submit } => true,
        CmdV::End => true,
        CmdV::PipelineBarrier { barriers } => forall|i: int|
            0 <= i < barriers.len() ==> is_full_color_range(#[trigger] barriers[i].range),
        CmdV::ClearColorImage { image, layout, color, range } => is_full_color_range(range),
        CmdV::CopyImage { src_image, src_layout, dst_image, dst_layout, region } => {
            &&& region.src_subresource == spec_full_color_layers()
            &&& region.dst_subresource == spec_full_color_layers()
        },
    }
}

/// Full-coverage subresource: every operation of both sequences in a cycle
/// addresses exactly one mip level and one array layer with the color aspect,
/// never a partial region.
pub proof fn lemma_full_coverage(
    compute_family: FamilyIndex,
    transfer_family: FamilyIndex,
    target: ImageId,
    dest: ImageId,
    color: ClearColor,
    width: u32,
    height: u32,
)
    ensures
        forall|i: int|
            0 <= i < clear_sequence(compute_family, transfer_family, target, color).len()
                ==> cmd_full_coverage(
                #[trigger] clear_sequence(compute_family, transfer_family, target, color)[i],
            ),
        forall|i: int|
            0 <= i < copy_sequence(
                compute_family,
                transfer_family,
                target,
                dest,
                width,
                height,
            ).len() ==> cmd_full_coverage(
                #[trigger] copy_sequence(
                    compute_family,
                    transfer_family,
                    target,
                    dest,
                    width,
                    height,
                )[i],
            ),
{
    let cs = clear_sequence(compute_family, transfer_family, target, color);
    let ps = copy_sequence(compute_family, transfer_family, target, dest, width, height);
    assert forall|i: int| 0 <= i < cs.len() implies cmd_full_coverage(#[trigger] cs[i]) by {
        assert(cmd_full_coverage(cs[0]));
        assert(cmd_full_coverage(cs[1]));
        assert(cmd_full_coverage(cs[2]));
        assert(cmd_full_coverage(cs[3]));
        assert(cmd_full_coverage(cs[4]));
    }
    assert forall|i: int| 0 <= i < ps.len() implies cmd_full_coverage(#[trigger] ps[i]) by {
        assert(cmd_full_coverage(ps[0]));
        assert(cmd_full_coverage(ps[1]));
        assert(cmd_full_coverage(ps[2]));
        assert(cmd_full_coverage(ps[3]));
        assert(cmd_full_coverage(ps[4]));
    }
}

/// Extent fidelity: the copy operation in the copy sequence copies exactly a
/// width by height by 1 extent with zero offsets on both sides.
pub proof fn lemma_copy_extent_fidelity(
    compute_family: FamilyIndex,
    transfer_family: FamilyIndex,
    src_image: ImageId,
    dst_image: ImageId,
    width: u32,
    height: u32,
)
    ensures
        copy_sequence(compute_family, transfer_family, src_image, dst_image, width, height)[2]
            == (CmdV::CopyImage {
            src_image,
            src_layout: ImageLayout::TransferSrcOptimal,
            dst_image,
            dst_layout: ImageLayout::TransferDstOptimal,
            region: spec_full_copy_region(width, height),
        }),
        spec_full_copy_region(width, height).extent.width == width,
        spec_full_copy_region(width, height).extent.height == height,
        spec_full_copy_region(width, height).extent.depth == 1,
        spec_full_copy_region(width, height).src_offset == (Offset3d { x: 0, y: 0, z: 0 }),
        spec_full_copy_region(width, height).dst_offset == (Offset3d { x: 0, y: 0, z: 0 }),
{
}

} // verus!

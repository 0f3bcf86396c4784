use vk_sync::barrier::{
    acquire_from_compute_barrier, host_read_barrier, init_copy_dst_barrier,
    init_transfer_dst_barrier, release_to_transfer_barrier, ImageBarrier,
};
use vk_sync::command_buffer::{BufferState, Cmd};
use vk_sync::command_pools::compute::ComputeCommandBufferPool;
use vk_sync::command_pools::transfer::TransferCommandBufferPool;
use vk_sync::families::QueueFamilies;
use vk_sync::resource::{
    fresh_resource_state, full_color_range, full_copy_region, Access, ClearColor, ImageLayout,
    Owner, ResourceState, Stage,
};

const COMPUTE: u32 = 0;
const TRANSFER: u32 = 1;
const TARGET: u64 = 11;
const DEST: u64 = 22;

fn color() -> ClearColor {
    ClearColor { r: 0, g: 0, b: 0, a: 255 }
}

fn released_state() -> ResourceState {
    ResourceState {
        layout: ImageLayout::TransferSrcOptimal,
        access: Access::Empty,
        owner: Owner::TransferPending {
            src: COMPUTE,
            dst: TRANSFER,
            old_layout: ImageLayout::TransferDstOptimal,
            new_layout: ImageLayout::TransferSrcOptimal,
        },
    }
}

fn record_clear(pool: &mut ComputeCommandBufferPool) -> ResourceState {
    let qf = QueueFamilies::new(COMPUTE, TRANSFER);
    pool.record_clear_img(&qf, TARGET, fresh_resource_state(), color())
}

#[test]
fn clear_then_copy_cycle_scenario() {
    // The full clear-then-copy cycle on a 256 by 256 image must record
    // exactly the expected command sequences into the two buffers.
    let qf = QueueFamilies::new(COMPUTE, TRANSFER);
    let mut compute_pool = ComputeCommandBufferPool::create(&qf);
    let mut transfer_pool = TransferCommandBufferPool::create(&qf);

    let released = record_clear(&mut compute_pool);
    let (src_after, dst_after) = transfer_pool.record_copy_img_to_host(
        &qf,
        TARGET,
        DEST,
        256,
        256,
        released,
        fresh_resource_state(),
    );

    let expected_clear = vec![
        Cmd::Begin { one_time_submit: true },
        Cmd::PipelineBarrier { barriers: vec![init_transfer_dst_barrier(TARGET)] },
        Cmd::ClearColorImage {
            image: TARGET,
            layout: ImageLayout::TransferDstOptimal,
            color: color(),
            range: full_color_range(),
        },
        Cmd::PipelineBarrier {
            barriers: vec![release_to_transfer_barrier(
                TARGET,
                ResourceState {
                    layout: ImageLayout::TransferDstOptimal,
                    access: Access::TransferWrite,
                    owner: Owner::Owned(COMPUTE),
                },
                COMPUTE,
                TRANSFER,
            )],
        },
        Cmd::End,
    ];
    assert_eq!(compute_pool.clear_img().commands(), &expected_clear);

    let expected_copy = vec![
        Cmd::Begin { one_time_submit: true },
        Cmd::PipelineBarrier {
            barriers: vec![
                acquire_from_compute_barrier(TARGET, released, COMPUTE, TRANSFER),
                init_copy_dst_barrier(DEST),
            ],
        },
        Cmd::CopyImage {
            src_image: TARGET,
            src_layout: ImageLayout::TransferSrcOptimal,
            dst_image: DEST,
            dst_layout: ImageLayout::TransferDstOptimal,
            region: full_copy_region(256, 256),
        },
        Cmd::PipelineBarrier {
            barriers: vec![host_read_barrier(
                DEST,
                ResourceState {
                    layout: ImageLayout::TransferDstOptimal,
                    access: Access::TransferWrite,
                    owner: Owner::Owned(TRANSFER),
                },
            )],
        },
        Cmd::End,
    ];
    assert_eq!(transfer_pool.copy_to_host().commands(), &expected_copy);

    assert_eq!(
        src_after,
        ResourceState {
            layout: ImageLayout::TransferSrcOptimal,
            access: Access::TransferRead,
            owner: Owner::Owned(TRANSFER),
        }
    );
    assert_eq!(
        dst_after,
        ResourceState {
            layout: ImageLayout::General,
            access: Access::HostRead,
            owner: Owner::Owned(TRANSFER),
        }
    );
}

#[test]
fn clear_release_matches_copy_acquire() {
    // The ownership transfer appears as a matched release/acquire pair with
    // identical layouts and families, and an empty source access on the
    // acquire.
    let prev = ResourceState {
        layout: ImageLayout::TransferDstOptimal,
        access: Access::TransferWrite,
        owner: Owner::Owned(COMPUTE),
    };
    let release: ImageBarrier = release_to_transfer_barrier(TARGET, prev, COMPUTE, TRANSFER);
    let acquire: ImageBarrier =
        acquire_from_compute_barrier(TARGET, released_state(), COMPUTE, TRANSFER);
    assert_eq!(release.old_layout, acquire.old_layout);
    assert_eq!(release.new_layout, acquire.new_layout);
    assert_eq!(release.src_queue_family, acquire.src_queue_family);
    assert_eq!(release.dst_queue_family, acquire.dst_queue_family);
    assert_eq!(acquire.src_access, Access::Empty);
}

#[test]
fn recording_after_reset_is_identical() {
    // Record, reset, record again: byte-identical command sequences each
    // cycle, with no state leaking between cycles.
    let qf = QueueFamilies::new(COMPUTE, TRANSFER);
    let mut pool = ComputeCommandBufferPool::create(&qf);
    record_clear(&mut pool);
    let first = pool.clear_img().commands().clone();
    pool.reset();
    assert_eq!(pool.clear_img().state(), BufferState::Initial);
    assert!(pool.clear_img().commands().is_empty());
    record_clear(&mut pool);
    assert_eq!(pool.clear_img().commands(), &first);
}

#[test]
fn transfer_recording_after_reset_is_identical() {
    let qf = QueueFamilies::new(COMPUTE, TRANSFER);
    let mut pool = TransferCommandBufferPool::create(&qf);
    pool.record_copy_img_to_host(&qf, TARGET, DEST, 64, 32, released_state(), fresh_resource_state());
    let first = pool.copy_to_host().commands().clone();
    pool.reset();
    pool.record_copy_img_to_host(&qf, TARGET, DEST, 64, 32, released_state(), fresh_resource_state());
    assert_eq!(pool.copy_to_host().commands(), &first);
}

#[test]
fn every_operation_covers_full_color_subresource() {
    // Every barrier, clear and copy in the cycle addresses one mip level and
    // one array layer of the color aspect, never a partial region.
    let qf = QueueFamilies::new(COMPUTE, TRANSFER);
    let mut compute_pool = ComputeCommandBufferPool::create(&qf);
    let mut transfer_pool = TransferCommandBufferPool::create(&qf);
    record_clear(&mut compute_pool);
    transfer_pool.record_copy_img_to_host(
        &qf,
        TARGET,
        DEST,
        256,
        256,
        released_state(),
        fresh_resource_state(),
    );
    let full = full_color_range();
    let all_cmds = compute_pool
        .clear_img()
        .commands()
        .iter()
        .chain(transfer_pool.copy_to_host().commands().iter());
    for cmd in all_cmds {
        match cmd {
            Cmd::PipelineBarrier { barriers } => {
                for b in barriers {
                    assert_eq!(b.range, full);
                }
            }
            Cmd::ClearColorImage { range, .. } => assert_eq!(*range, full),
            Cmd::CopyImage { region, .. } => {
                assert_eq!(region.src_subresource.mip_level, 0);
                assert_eq!(region.src_subresource.layer_count, 1);
                assert_eq!(region.dst_subresource.mip_level, 0);
                assert_eq!(region.dst_subresource.layer_count, 1);
            }
            Cmd::Begin { .. } | Cmd::End => {}
        }
    }
}

#[test]
fn copy_extent_matches_agreed_size() {
    // The copy's extent is exactly width by height by 1 with zero offsets:
    // no off-by-one and no dimension transposition.
    let qf = QueueFamilies::new(COMPUTE, TRANSFER);
    let mut pool = TransferCommandBufferPool::create(&qf);
    pool.record_copy_img_to_host(&qf, TARGET, DEST, 640, 480, released_state(), fresh_resource_state());
    let cmds = pool.copy_to_host().commands();
    match &cmds[2] {
        Cmd::CopyImage { region, .. } => {
            assert_eq!(region.extent.width, 640);
            assert_eq!(region.extent.height, 480);
            assert_eq!(region.extent.depth, 1);
            assert_eq!(region.src_offset.x, 0);
            assert_eq!(region.src_offset.y, 0);
            assert_eq!(region.src_offset.z, 0);
            assert_eq!(region.dst_offset.x, 0);
            assert_eq!(region.dst_offset.y, 0);
            assert_eq!(region.dst_offset.z, 0);
        }
        other => panic!("expected the copy at index 2, found {:?}", other),
    }
}

#[test]
fn barrier_stage_gating_orders_the_queues() {
    // The release signals readiness at the transfer stage; the acquire is
    // gated on the copy stage so the copy cannot start before the transfer
    // is visible; the final barrier gates the host stage. Both buffers begin
    // with one-time-submit intent.
    let qf = QueueFamilies::new(COMPUTE, TRANSFER);
    let mut compute_pool = ComputeCommandBufferPool::create(&qf);
    let mut transfer_pool = TransferCommandBufferPool::create(&qf);
    record_clear(&mut compute_pool);
    transfer_pool.record_copy_img_to_host(
        &qf,
        TARGET,
        DEST,
        256,
        256,
        released_state(),
        fresh_resource_state(),
    );

    let clear_cmds = compute_pool.clear_img().commands();
    assert_eq!(clear_cmds[0], Cmd::Begin { one_time_submit: true });
    match &clear_cmds[3] {
        Cmd::PipelineBarrier { barriers } => {
            assert_eq!(barriers[0].src_stage, Stage::Transfer);
            assert_eq!(barriers[0].dst_stage, Stage::Transfer);
        }
        other => panic!("expected the release barrier at index 3, found {:?}", other),
    }

    let copy_cmds = transfer_pool.copy_to_host().commands();
    assert_eq!(copy_cmds[0], Cmd::Begin { one_time_submit: true });
    match &copy_cmds[1] {
        Cmd::PipelineBarrier { barriers } => {
            assert_eq!(barriers[0].src_stage, Stage::Transfer);
            assert_eq!(barriers[0].dst_stage, Stage::Copy);
            // the destination's first use waits on nothing and holds back
            // only the copy
            assert_eq!(barriers[1].src_stage, Stage::Empty);
            assert_eq!(barriers[1].dst_stage, Stage::Copy);
        }
        other => panic!("expected the acquire batch at index 1, found {:?}", other),
    }
    match &copy_cmds[3] {
        Cmd::PipelineBarrier { barriers } => {
            assert_eq!(barriers[0].src_stage, Stage::Transfer);
            assert_eq!(barriers[0].dst_stage, Stage::Host);
        }
        other => panic!("expected the host barrier at index 3, found {:?}", other),
    }
}

#[test]
fn buffer_lifecycle_states() {
    let qf = QueueFamilies::new(COMPUTE, TRANSFER);
    let mut pool = ComputeCommandBufferPool::create(&qf);
    assert_eq!(pool.clear_img().state(), BufferState::Initial);
    assert_eq!(pool.clear_img().family(), COMPUTE);
    record_clear(&mut pool);
    assert_eq!(pool.clear_img().state(), BufferState::Executable);
    pool.destroy_self();
}

#[test]
fn clear_returns_pending_transfer_state() {
    let qf = QueueFamilies::new(COMPUTE, TRANSFER);
    let mut pool = ComputeCommandBufferPool::create(&qf);
    let released = pool.record_clear_img(&qf, TARGET, fresh_resource_state(), color());
    assert_eq!(released, released_state());
}

#[test]
fn clear_with_aliased_families_keeps_ownership() {
    // Where the compute and transfer roles alias to one family, no transfer
    // is pending: the single family keeps ownership with read access.
    let qf = QueueFamilies::new(3, 3);
    let mut pool = ComputeCommandBufferPool::create(&qf);
    let released = pool.record_clear_img(&qf, TARGET, fresh_resource_state(), color());
    assert_eq!(
        released,
        ResourceState {
            layout: ImageLayout::TransferSrcOptimal,
            access: Access::TransferRead,
            owner: Owner::Owned(3),
        }
    );
}

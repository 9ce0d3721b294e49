use gfx_runtime::buffer::{Info, Role};
use gfx_runtime::command::{AccessInfo, SubmissionError};
use gfx_runtime::gl::call::{
    Call, ARRAY_BUFFER, CLIENT_MAPPED_BUFFER_BARRIER_BIT, ELEMENT_ARRAY_BUFFER,
    SYNC_GPU_COMMANDS_COMPLETE,
};
use gfx_runtime::gl::command::{Command, DataBuffer, SubmitInfo};
use gfx_runtime::gl::device::{MappingGate, MappingKind};
use gfx_runtime::gl::info::{Features, Limits, PrivateCaps, Version};
use gfx_runtime::gl::native::{FatSampler, Image, ResourceView};
use gfx_runtime::gl::{Backend, CommandQueue, Share};
use gfx_runtime::handle::{Manager, Producer, RawBuffer};
use gfx_runtime::mapping;
use gfx_runtime::memory::Usage;
use gfx_runtime::texture;
use gfx_runtime::format::SurfaceType;

fn share(storage: bool, sync: bool) -> Share {
    Share::new(
        Version { is_embedded: false, major: 4, minor: 5 },
        Features {
            draw_instanced: true,
            draw_instanced_base: true,
            draw_indexed_base: true,
            draw_indexed_instanced: true,
            draw_indexed_instanced_base_vertex: true,
            draw_indexed_instanced_base: true,
            srgb_color: true,
        },
        Limits { max_viewports: 16 },
        PrivateCaps {
            array_buffer_supported: true,
            buffer_storage_supported: storage,
            sync_supported: sync,
        },
        false,
    )
}

fn info(size: usize) -> Info {
    Info { role: Role::Vertex, usage: Usage::Upload, bind: 0, size, stride: 4 }
}

fn make_buffer(share: &mut Share, name: u32, gate: Option<MappingGate>) -> RawBuffer<Backend> {
    share.handles.make_buffer(&mut share.heap, name, info(256), gate)
}

fn one_draw() -> Vec<SubmitInfo> {
    vec![SubmitInfo {
        buf: vec![Command::Draw { primitive: 4, start: 0, count: 3, instances: None }],
        data: DataBuffer::new(),
    }]
}

fn count(calls: &[Call], wanted: fn(&Call) -> bool) -> usize {
    calls.iter().filter(|c| wanted(c)).count()
}

#[test]
fn temporary_mapping_is_unmapped_once_before_the_commands() {
    let mut share = share(false, true);
    let mut queue = CommandQueue::new(1);
    let b = make_buffer(&mut share, 7, Some(MappingGate::temporary()));

    // map for write
    assert!(share.map_buffer(&b, 0x1000));
    let access = share.acquire_mapping(&b, true).ok().unwrap();
    assert_eq!(access.pointer, 0x1000);
    assert!(access.wait_for.is_none());
    share.release_mapping(&b);

    // record a command buffer that reads the buffer
    let mut touched: AccessInfo<Backend> = AccessInfo::new();
    touched.buffer_read(&share.heap.buffers, &b);
    assert!(touched.has_mapped_reads());
    assert!(!touched.has_mapped_writes());

    let sub = queue.submit_raw(&mut share, &one_draw(), None, &touched).ok().unwrap();
    assert_eq!(
        sub.before,
        vec![Call::BindBuffer { target: ARRAY_BUFFER, buffer: 7 }, Call::UnmapBuffer { target: ARRAY_BUFFER }]
    );
    assert_eq!(count(&sub.before, |c| matches!(c, Call::UnmapBuffer { .. })), 1);
    assert_eq!(sub.replays.len(), 1);
    assert_eq!(sub.replays[0].outcomes[0].calls, vec![Call::DrawArrays { mode: 4, first: 0, count: 3 }]);
    assert_eq!(sub.after, vec![]);

    // writing again without mapping again fails
    match share.acquire_mapping(&b, true) {
        Err(e) => assert_eq!(e, mapping::Error::NotMapped),
        Ok(_) => panic!("the memory is unmapped"),
    }
    // a second submission has nothing to unmap
    let again = queue.submit_raw(&mut share, &one_draw(), None, &touched).ok().unwrap();
    assert_eq!(again.before, vec![]);
}

#[test]
fn persistent_mapping_is_flushed_once_and_fenced_once() {
    let mut share = share(true, true);
    let mut queue = CommandQueue::new(1);
    let b = make_buffer(&mut share, 7, Some(MappingGate::persistent(0x2000)));

    // write
    let access = share.acquire_mapping(&b, true).ok().unwrap();
    assert_eq!(access.pointer, 0x2000);
    assert!(access.wait_for.is_none());
    share.release_mapping(&b);

    // record a command buffer that reads the buffer
    let mut recorded: Manager<Backend> = Manager::new();
    recorded.ref_buffer(&mut share.heap, &b);
    let mut touched: AccessInfo<Backend> = AccessInfo::new();
    touched.buffer_read(&share.heap.buffers, &b);

    let sub = queue.submit_raw(&mut share, &one_draw(), None, &touched).ok().unwrap();
    assert_eq!(
        sub.before,
        vec![
            Call::BindBuffer { target: ARRAY_BUFFER, buffer: 7 },
            Call::FlushMappedBufferRange { target: ARRAY_BUFFER, offset: 0, length: 256 },
        ]
    );
    assert_eq!(count(&sub.before, |c| matches!(c, Call::FlushMappedBufferRange { .. })), 1);
    assert_eq!(
        sub.after,
        vec![Call::FenceSync { condition: SYNC_GPU_COMMANDS_COMPLETE, flags: 0, fence: 0 }]
    );
    assert_eq!(count(&sub.after, |c| matches!(c, Call::FenceSync { .. })), 1);
    assert!(share.fence_placed(0, 0xF00));
    assert_eq!(share.heap.fences.get(0).unwrap().0, 0xF00);
    // the queue and the mapping refer to the fence
    assert_eq!(share.heap.fences.count(0), 2);
    assert_eq!(queue.frame_handles.fences, vec![0]);

    // the queue keeps what the batch refers to
    assert!(!queue.pin_submitted_resources(&mut share, &recorded));
    recorded.clear(&mut share.heap);
    b.release(&mut share.heap);
    assert_eq!(share.heap.buffers.count(0), 2);
    assert!(share.heap.buffers.get(0).is_some());

    // the fence was not observed yet: cleanup leaves the buffer alone
    let out = queue.cleanup(&mut share);
    assert_eq!(out.calls, vec![]);
    assert_eq!(out.destroyed.buffers.len(), 0);
    assert_eq!(queue.frame_handles.count(), 0);
    assert_eq!(share.heap.buffers.count(0), 1);
    assert!(share.heap.buffers.get(0).is_some());
    assert_eq!(share.handles.buffers, vec![0]);
    // and so does every cleanup until the fence is observed
    let out = queue.cleanup(&mut share);
    assert_eq!(out.calls, vec![]);
    assert!(share.heap.buffers.get(0).is_some());

    // the fence is observed: its last reference was the mapping's
    assert_eq!(share.fence_observed(0), Some(gfx_runtime::gl::native::Fence::new(0xF00)));
    assert!(share.heap.fences.get(0).is_none());
    assert!(share.heap.buffers.get(0).is_some());

    // the cleanup that follows destroys the buffer
    let out = queue.cleanup(&mut share);
    assert_eq!(out.destroyed.buffers.len(), 1);
    assert_eq!(out.destroyed.buffers[0].1.resource, 7);
    assert_eq!(out.calls, vec![Call::DeleteBuffers { buffer: 7 }]);
    assert!(share.heap.buffers.get(0).is_none());
    assert_eq!(share.handles.count(), 0);
    // and a second cleanup destroys nothing
    let out = queue.cleanup(&mut share);
    assert_eq!(out.calls, vec![]);
    assert_eq!(out.destroyed.buffers.len(), 0);
}

#[test]
fn a_later_submission_moves_the_mapping_to_its_fence() {
    let mut share = share(true, true);
    let mut queue = CommandQueue::new(1);
    let b = make_buffer(&mut share, 7, Some(MappingGate::persistent(0x2000)));
    let access = share.acquire_mapping(&b, true).ok().unwrap();
    assert!(access.wait_for.is_none());
    share.release_mapping(&b);
    let mut touched: AccessInfo<Backend> = AccessInfo::new();
    touched.buffer_read(&share.heap.buffers, &b);
    let first = queue.submit_raw(&mut share, &one_draw(), None, &touched).ok().unwrap();
    assert_eq!(first.before.len(), 2);
    // nothing was written since: no second flush, but a second fence
    let again = queue.submit_raw(&mut share, &one_draw(), None, &touched).ok().unwrap();
    assert_eq!(again.before, vec![]);
    assert_eq!(
        again.after,
        vec![Call::FenceSync { condition: SYNC_GPU_COMMANDS_COMPLETE, flags: 0, fence: 1 }]
    );
    assert_eq!(share.heap.fences.count(0), 1);
    assert_eq!(share.heap.fences.count(1), 2);
    // the first fence is of no concern to the buffer any more
    b.release(&mut share.heap);
    assert_eq!(share.fence_observed(0), None);
    assert_eq!(queue.cleanup(&mut share).destroyed.buffers.len(), 0);
    assert_eq!(share.fence_observed(1), Some(gfx_runtime::gl::native::Fence::new(0)));
    assert_eq!(queue.cleanup(&mut share).destroyed.buffers.len(), 1);
}

#[test]
fn one_fence_is_observed_on_every_buffer_that_notes_it() {
    let mut share = share(true, true);
    let mut queue = CommandQueue::new(1);
    let a = make_buffer(&mut share, 1, Some(MappingGate::persistent(0x1000)));
    let b = make_buffer(&mut share, 2, Some(MappingGate::persistent(0x2000)));
    let c = make_buffer(&mut share, 3, Some(MappingGate::persistent(0x3000)));
    let mut touched: AccessInfo<Backend> = AccessInfo::new();
    touched.buffer_read(&share.heap.buffers, &a);
    touched.buffer_write(&share.heap.buffers, &b);
    assert!(queue.submit_raw(&mut share, &one_draw(), None, &touched).is_ok());
    // both mappings and the queue refer to the fence
    assert_eq!(share.heap.fences.count(0), 3);
    a.release(&mut share.heap);
    b.release(&mut share.heap);
    c.release(&mut share.heap);
    // the buffer that no batch touched goes at once, the others stay
    let out = queue.cleanup(&mut share);
    assert_eq!(out.calls, vec![Call::DeleteBuffers { buffer: 3 }]);
    assert_eq!(share.heap.fences.count(0), 2);
    assert_eq!(share.fence_observed(5), None);
    assert_eq!(share.fence_observed(0), Some(gfx_runtime::gl::native::Fence::new(0)));
    assert_eq!(share.heap.fences.count(0), 0);
    let out = queue.cleanup(&mut share);
    assert_eq!(
        out.calls,
        vec![Call::DeleteBuffers { buffer: 1 }, Call::DeleteBuffers { buffer: 2 }]
    );
}

#[test]
fn taking_the_memory_counts_as_observing_the_fence() {
    let mut share = share(true, true);
    let mut queue = CommandQueue::new(1);
    let b = make_buffer(&mut share, 7, Some(MappingGate::persistent(0x2000)));
    let mut touched: AccessInfo<Backend> = AccessInfo::new();
    touched.buffer_read(&share.heap.buffers, &b);
    assert!(queue.submit_raw(&mut share, &one_draw(), None, &touched).is_ok());
    let access = share.acquire_mapping(&b, false).ok().unwrap();
    let fence = access.wait_for.unwrap();
    share.release_mapping(&b);
    fence.release(&mut share.heap);
    b.release(&mut share.heap);
    let out = queue.cleanup(&mut share);
    assert_eq!(out.calls, vec![Call::DeleteBuffers { buffer: 7 }]);
}

#[test]
fn the_cpu_waits_for_the_fence_of_the_last_access() {
    let mut share = share(true, true);
    let mut queue = CommandQueue::new(1);
    let b = make_buffer(&mut share, 7, Some(MappingGate::persistent(0x2000)));
    let mut touched: AccessInfo<Backend> = AccessInfo::new();
    touched.buffer_write(&share.heap.buffers, &b);
    let sub = queue.submit_raw(&mut share, &one_draw(), None, &touched).ok().unwrap();
    assert_eq!(sub.before, vec![]);
    assert_eq!(
        sub.after,
        vec![
            Call::MemoryBarrier { barriers: CLIENT_MAPPED_BUFFER_BARRIER_BIT },
            Call::FenceSync { condition: SYNC_GPU_COMMANDS_COMPLETE, flags: 0, fence: 0 },
        ]
    );
    let access = share.acquire_mapping(&b, false).ok().unwrap();
    let fence = access.wait_for.unwrap();
    assert_eq!(fence.slot, 0);
    assert_eq!(
        queue.wait_fence(&mut share, &fence),
        Call::ClientWaitSync { fence: 0, flags: 1, timeout: 1_000_000 }
    );
    fence.release(&mut share.heap);
    share.release_mapping(&b);
    // the fence was handed out: the next access has nothing to wait for
    let access = share.acquire_mapping(&b, false).ok().unwrap();
    assert!(access.wait_for.is_none());
}

#[test]
fn a_mapping_in_other_hands_stops_the_submission() {
    let mut share = share(true, true);
    let mut queue = CommandQueue::new(1);
    let b = make_buffer(&mut share, 7, Some(MappingGate::persistent(0x2000)));
    let mut touched: AccessInfo<Backend> = AccessInfo::new();
    touched.buffer_read(&share.heap.buffers, &b);
    let _held = share.acquire_mapping(&b, true).ok().unwrap();
    match queue.submit_raw(&mut share, &one_draw(), None, &touched) {
        Err(e) => assert_eq!(e, SubmissionError::AccessOverlap),
        Ok(_) => panic!("the mapping is in the CPU's hands"),
    }
    match share.acquire_mapping(&b, true) {
        Err(e) => assert_eq!(e, mapping::Error::AccessOverlap),
        Ok(_) => panic!("the mapping is taken"),
    }
    assert_eq!(share.heap.fences.len(), 0);
    share.release_mapping(&b);
    assert!(queue.submit_raw(&mut share, &one_draw(), None, &touched).is_ok());
}

#[test]
fn a_mapping_of_the_wrong_kind_stops_the_submission() {
    let mut share = share(true, true);
    let mut queue = CommandQueue::new(1);
    let b = make_buffer(&mut share, 7, Some(MappingGate::temporary()));
    let mut touched: AccessInfo<Backend> = AccessInfo::new();
    touched.buffer_write(&share.heap.buffers, &b);
    match queue.submit_raw(&mut share, &one_draw(), None, &touched) {
        Err(e) => assert_eq!(e, SubmissionError::MappingMismatch),
        Ok(_) => panic!("the mapping is of the wrong kind"),
    }
    assert!(matches!(
        share.heap.buffers.get(0).unwrap().mapping.as_ref().unwrap().resource.kind,
        MappingKind::Temporary
    ));
    assert!(share.heap.buffers.get(0).unwrap().mapping.as_ref().unwrap().accessible);
}

#[test]
fn a_buffer_without_a_mapping_is_not_tracked() {
    let mut share = share(true, true);
    let b = make_buffer(&mut share, 7, None);
    let mut touched: AccessInfo<Backend> = AccessInfo::new();
    touched.buffer_read(&share.heap.buffers, &b);
    touched.buffer_write(&share.heap.buffers, &b);
    assert!(!touched.has_mapped_reads());
    assert!(!touched.has_mapped_writes());
    match share.acquire_mapping(&b, false) {
        Err(e) => assert_eq!(e, mapping::Error::InvalidAccess),
        Ok(_) => panic!("there is no mapping"),
    }
    assert!(!share.map_buffer(&b, 0x100));
}

#[test]
fn the_callers_fence_is_signalled_where_there_are_sync_objects() {
    let mut with_sync = share(true, true);
    let mut queue = CommandQueue::new(1);
    let fence = with_sync.handles.make_fence(&mut with_sync.heap, gfx_runtime::gl::native::Fence::new(0));
    let touched: AccessInfo<Backend> = AccessInfo::new();
    let sub = queue.submit_raw(&mut with_sync, &one_draw(), Some(&fence), &touched).ok().unwrap();
    assert_eq!(
        sub.after,
        vec![Call::FenceSync { condition: SYNC_GPU_COMMANDS_COMPLETE, flags: 0, fence: 0 }]
    );
    assert_eq!(queue.frame_handles.fences, vec![0]);
    assert_eq!(with_sync.heap.fences.count(0), 3);

    let mut without = share(true, false);
    let mut queue = CommandQueue::new(1);
    let fence = without.handles.make_fence(&mut without.heap, gfx_runtime::gl::native::Fence::new(0));
    let sub = queue.submit_raw(&mut without, &one_draw(), Some(&fence), &touched).ok().unwrap();
    assert_eq!(sub.after, vec![]);
    assert_eq!(queue.frame_handles.count(), 0);
}

#[test]
fn each_command_buffer_starts_from_a_reset() {
    let mut share = share(true, true);
    let mut queue = CommandQueue::new(5);
    let touched: AccessInfo<Backend> = AccessInfo::new();
    let infos = vec![
        SubmitInfo { buf: vec![Command::BindIndexBuffer(9)], data: DataBuffer::new() },
        SubmitInfo { buf: vec![Command::Dispatch(1, 1, 1)], data: DataBuffer::new() },
    ];
    let sub = queue.submit_raw(&mut share, &infos, None, &touched).ok().unwrap();
    assert_eq!(sub.replays.len(), 2);
    assert_eq!(
        sub.replays[0].reset.calls,
        vec![
            Call::BindVertexArray { array: 5 },
            Call::BindBuffer { target: ELEMENT_ARRAY_BUFFER, buffer: 0 },
        ]
    );
    assert_eq!(
        sub.replays[0].outcomes[0].calls,
        vec![Call::BindBuffer { target: ELEMENT_ARRAY_BUFFER, buffer: 9 }]
    );
    assert_eq!(
        sub.replays[1].reset.calls,
        vec![Call::BindBuffer { target: ELEMENT_ARRAY_BUFFER, buffer: 0 }]
    );
    assert_eq!(sub.replays[1].outcomes[0].calls, vec![Call::DispatchCompute { x: 1, y: 1, z: 1 }]);
    assert_eq!(queue.state.index_buffer, Some(0));
}

#[test]
fn too_many_references_are_reported_once() {
    let mut share = share(true, true);
    let mut queue = CommandQueue::new(1);
    queue.max_resource_count = Some(2);
    let b = make_buffer(&mut share, 7, None);
    let mut recorded: Manager<Backend> = Manager::new();
    recorded.ref_buffer(&mut share.heap, &b);
    recorded.ref_buffer(&mut share.heap, &b);
    assert!(!queue.pin_submitted_resources(&mut share, &recorded));
    assert_eq!(queue.max_resource_count, Some(2));
    assert!(queue.pin_submitted_resources(&mut share, &recorded));
    assert_eq!(queue.max_resource_count, None);
    assert!(!queue.pin_submitted_resources(&mut share, &recorded));
    assert_eq!(queue.frame_handles.count(), 6);
    assert_eq!(queue.max_resource_count, None);
}

#[test]
fn cleanup_destroys_each_kind_with_its_call() {
    let mut share = share(false, true);
    let mut queue = CommandQueue::new(1);
    let mapped = make_buffer(&mut share, 7, Some(MappingGate::temporary()));
    share.map_buffer(&mapped, 0x1000);
    let tex_info = texture::Info {
        kind: texture::Kind::D2(4, 4, texture::AaMode::Single),
        levels: 1,
        format: SurfaceType::R8_G8_B8_A8,
        bind: 0,
        usage: Usage::Data,
    };
    let surface = share.handles.make_texture(&mut share.heap, Image::Surface(3), tex_info);
    let tex = share.handles.make_texture(&mut share.heap, Image::Texture(4), tex_info);
    let owned = share.handles.make_texture_srv(&mut share.heap, ResourceView::new_buffer(11), &tex);
    let sampler_info = texture::SamplerInfo {
        filter: texture::FilterMethod::Bilinear,
        wrap_u: texture::WrapMode::Clamp,
        wrap_v: texture::WrapMode::Clamp,
        wrap_w: texture::WrapMode::Clamp,
    };
    let sampler = share.handles.make_sampler(&mut share.heap, FatSampler::Sampler(5), sampler_info);
    let none = share.handles.make_sampler(&mut share.heap, FatSampler::Sampler(0), sampler_info);
    let fence = share.handles.make_fence(&mut share.heap, gfx_runtime::gl::native::Fence::new(0xABC));
    let kept = make_buffer(&mut share, 8, None);
    mapped.release(&mut share.heap);
    surface.release(&mut share.heap);
    tex.release(&mut share.heap);
    owned.release(&mut share.heap);
    sampler.release(&mut share.heap);
    none.release(&mut share.heap);
    fence.release(&mut share.heap);
    let out = queue.cleanup(&mut share);
    assert_eq!(
        out.calls,
        vec![
            Call::BindBuffer { target: ARRAY_BUFFER, buffer: 7 },
            Call::UnmapBuffer { target: ARRAY_BUFFER },
            Call::DeleteBuffers { buffer: 7 },
            Call::DeleteRenderbuffers { surface: 3 },
            Call::DeleteTextures { texture: 4 },
            Call::DeleteTextures { texture: 11 },
            Call::DeleteSamplers { sampler: 5 },
            Call::DeleteSync { sync: 0xABC },
        ]
    );
    assert_eq!(out.destroyed.samplers.len(), 2);
    assert_eq!(share.heap.buffers.count(kept.slot), 2);
    assert_eq!(share.handles.count(), 1);
}

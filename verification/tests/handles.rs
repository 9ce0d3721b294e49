use gfx_runtime::buffer::{Info, Role};
use gfx_runtime::gl::native::{Fence as NativeFence, Image, TargetView};
use gfx_runtime::gl::Backend;
use gfx_runtime::handle::{Heap, Manager, Producer};
use gfx_runtime::memory::Usage;
use gfx_runtime::texture;
use gfx_runtime::format::SurfaceType;

fn vertex_info(size: usize) -> Info {
    Info { role: Role::Vertex, usage: Usage::Data, bind: 0, size, stride: 4 }
}

fn texture_info() -> texture::Info {
    texture::Info {
        kind: texture::Kind::D2(4, 4, texture::AaMode::Single),
        levels: 1,
        format: SurfaceType::R8_G8_B8_A8,
        bind: 0,
        usage: Usage::Data,
    }
}

#[test]
fn a_new_resource_counts_the_pool_and_one_handle() {
    let mut heap: Heap<Backend> = Heap::new();
    let mut pool: Manager<Backend> = Manager::new();
    let handle = pool.make_buffer(&mut heap, 7, vertex_info(64), None);
    assert_eq!(handle.slot, 0);
    assert_eq!(*handle.resource(), 7);
    assert_eq!(handle.get_info().size, 64);
    assert_eq!(heap.buffers.count(0), 2);
    assert_eq!(pool.count(), 1);
    assert_eq!(pool.buffers, vec![0]);
}

#[test]
fn destroyed_once_after_the_last_handle_is_gone() {
    let mut heap: Heap<Backend> = Heap::new();
    let mut pool: Manager<Backend> = Manager::new();
    let mut frame: Manager<Backend> = Manager::new();
    let handle = pool.make_buffer(&mut heap, 7, vertex_info(64), None);

    // a handle and a frame reference are left: nothing is destroyed
    assert_eq!(*frame.ref_buffer(&mut heap, &handle), 7);
    assert_eq!(heap.buffers.count(0), 3);
    assert_eq!(pool.clean_with(&mut heap).buffers.len(), 0);

    // the handle is gone, the frame still refers to the buffer
    handle.release(&mut heap);
    assert_eq!(heap.buffers.count(0), 2);
    assert_eq!(pool.clean_with(&mut heap).buffers.len(), 0);

    // the frame lets go: the next sweep destroys, exactly once
    frame.clear(&mut heap);
    assert_eq!(frame.count(), 0);
    assert_eq!(heap.buffers.count(0), 1);
    let swept = pool.clean_with(&mut heap);
    assert_eq!(swept.buffers.len(), 1);
    assert_eq!(swept.buffers[0].0, 0);
    assert_eq!(swept.buffers[0].1.resource, 7);
    assert_eq!(heap.buffers.count(0), 0);
    assert!(heap.buffers.get(0).is_none());
    assert_eq!(pool.count(), 0);
    assert_eq!(pool.clean_with(&mut heap).buffers.len(), 0);
}

#[test]
fn a_second_sweep_destroys_nothing() {
    let mut heap: Heap<Backend> = Heap::new();
    let mut pool: Manager<Backend> = Manager::new();
    let a = pool.make_buffer(&mut heap, 1, vertex_info(8), None);
    let b = pool.make_buffer(&mut heap, 2, vertex_info(8), None);
    let c = pool.make_buffer(&mut heap, 3, vertex_info(8), None);
    a.release(&mut heap);
    c.release(&mut heap);
    let first = pool.clean_with(&mut heap);
    let mut names: Vec<u32> = first.buffers.iter().map(|item| item.1.resource).collect();
    names.sort();
    assert_eq!(names, vec![1, 3]);
    assert_eq!(pool.buffers, vec![1]);
    let second = pool.clean_with(&mut heap);
    assert_eq!(second.buffers.len(), 0);
    assert_eq!(second.textures.len(), 0);
    assert_eq!(second.fences.len(), 0);
    assert_eq!(pool.buffers, vec![1]);
    assert_eq!(heap.buffers.count(b.slot), 2);
}

#[test]
fn sweep_takes_entries_out_by_moving_the_last_into_place() {
    let mut heap: Heap<Backend> = Heap::new();
    let mut pool: Manager<Backend> = Manager::new();
    let h0 = pool.make_buffer(&mut heap, 10, vertex_info(8), None);
    let _h1 = pool.make_buffer(&mut heap, 11, vertex_info(8), None);
    let h2 = pool.make_buffer(&mut heap, 12, vertex_info(8), None);
    let _h3 = pool.make_buffer(&mut heap, 13, vertex_info(8), None);
    h0.release(&mut heap);
    h2.release(&mut heap);
    let swept = pool.clean_with(&mut heap);
    assert_eq!(swept.buffers.len(), 2);
    assert_eq!(swept.buffers[0].0, 0);
    assert_eq!(swept.buffers[1].0, 2);
    assert_eq!(pool.buffers, vec![3, 1]);
}

#[test]
fn clear_gives_back_without_destroying() {
    let mut heap: Heap<Backend> = Heap::new();
    let mut pool: Manager<Backend> = Manager::new();
    let mut frame: Manager<Backend> = Manager::new();
    let handle = pool.make_texture(&mut heap, Image::Texture(5), texture_info());
    frame.ref_texture(&mut heap, &handle);
    frame.ref_texture(&mut heap, &handle);
    assert_eq!(frame.count(), 2);
    assert_eq!(heap.textures.count(0), 4);
    frame.clear(&mut heap);
    assert_eq!(frame.count(), 0);
    assert_eq!(heap.textures.count(0), 2);
    assert!(heap.textures.get(0).is_some());
}

#[test]
fn extend_takes_a_reference_for_each_entry() {
    let mut heap: Heap<Backend> = Heap::new();
    let mut pool: Manager<Backend> = Manager::new();
    let mut recorded: Manager<Backend> = Manager::new();
    let mut frame: Manager<Backend> = Manager::new();
    let buffer = pool.make_buffer(&mut heap, 1, vertex_info(8), None);
    let fence = pool.make_fence(&mut heap, NativeFence::new(9));
    recorded.ref_buffer(&mut heap, &buffer);
    recorded.ref_buffer(&mut heap, &buffer);
    recorded.ref_fence(&mut heap, &fence);
    assert_eq!(recorded.count(), 3);
    frame.extend(&mut heap, &recorded);
    assert_eq!(frame.count(), 3);
    assert_eq!(frame.buffers, vec![0, 0]);
    assert_eq!(frame.fences, vec![0]);
    assert_eq!(heap.buffers.count(0), 6);
    assert_eq!(heap.fences.count(0), 4);
}

#[test]
fn a_view_keeps_its_texture_alive() {
    let mut heap: Heap<Backend> = Heap::new();
    let mut pool: Manager<Backend> = Manager::new();
    let tex = pool.make_texture(&mut heap, Image::Texture(5), texture_info());
    let dim = (4, 4, 1, texture::AaMode::Single);
    let view = pool.make_rtv(&mut heap, TargetView::Texture(5, 0), &tex, dim);
    assert_eq!(view.get_dimensions(), dim);
    assert_eq!(view.get_texture().slot, tex.slot);
    assert_eq!(heap.textures.count(0), 3);
    tex.release(&mut heap);
    // the view is the texture's last handle
    assert_eq!(pool.clean_with(&mut heap).textures.len(), 0);
    let mut frame: Manager<Backend> = Manager::new();
    frame.ref_rtv(&mut heap, &view);
    assert_eq!(frame.rtvs, vec![0]);
    assert_eq!(frame.textures, vec![0]);
    frame.clear(&mut heap);
    view.release(&mut heap);
    let swept = pool.clean_with(&mut heap);
    assert_eq!(swept.textures.len(), 1);
    assert_eq!(swept.rtvs.len(), 1);
}

#[test]
fn a_stale_handle_is_not_referenced() {
    let mut heap: Heap<Backend> = Heap::new();
    let mut pool: Manager<Backend> = Manager::new();
    let handle = pool.make_buffer(&mut heap, 1, vertex_info(8), None);
    let copy = handle.duplicate(&mut heap).unwrap();
    assert_eq!(heap.buffers.count(0), 3);
    handle.release(&mut heap);
    pool.clear(&mut heap);
    let stale = gfx_runtime::handle::RawBuffer::<Backend> {
        slot: copy.slot,
        resource: copy.resource,
        info: copy.info,
    };
    copy.release(&mut heap);
    assert!(heap.buffers.get(0).is_none());
    let mut frame: Manager<Backend> = Manager::new();
    frame.ref_buffer(&mut heap, &stale);
    assert_eq!(frame.count(), 0);
    assert!(stale.duplicate(&mut heap).is_none());
}

#[test]
fn slots_are_never_used_twice() {
    let mut heap: Heap<Backend> = Heap::new();
    let mut pool: Manager<Backend> = Manager::new();
    let first = pool.make_buffer(&mut heap, 1, vertex_info(8), None);
    first.release(&mut heap);
    assert_eq!(pool.clean_with(&mut heap).buffers.len(), 1);
    let second = pool.make_buffer(&mut heap, 2, vertex_info(8), None);
    assert_eq!(second.slot, 1);
    assert_eq!(heap.buffers.len(), 2);
}

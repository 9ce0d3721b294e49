use gfx_runtime::command::Level;
use gfx_runtime::format::SurfaceType;
use gfx_runtime::gl::adapter::{create_main_targets_raw, Adapter, QueueType};
use gfx_runtime::gl::call::DataPointer;
use gfx_runtime::gl::command::DataBuffer;
use gfx_runtime::gl::device::role_to_target;
use gfx_runtime::gl::info::{Features, Limits, PrivateCaps, Version};
use gfx_runtime::gl::native::{Fence, Image, ResourceView, TargetView, TEXTURE_BUFFER};
use gfx_runtime::gl::pool::RawCommandPool;
use gfx_runtime::gl::rects::RectList;
use gfx_runtime::gl::{Backend, QueueFamily, Share};
use gfx_runtime::handle::{Buffer, Heap, Manager, Producer, Texture};
use gfx_runtime::memory::{Typed, Usage, DEPTH_STENCIL, RENDER_TARGET, TRANSFER_SRC};
use gfx_runtime::pool::{
    ComputeCommandPool, GeneralCommandPool, GraphicsCommandPool, RawCommandPool as PoolOps,
    TransferCommandPool,
};
use gfx_runtime::gl::call::Call;
use gfx_runtime::gl::command::Command;
use gfx_runtime::{buffer, texture};

#[test]
fn neutral_rectangles_are_all_zero() {
    assert_eq!(RectList::new().to_vec(), vec![]);
    assert_eq!(RectList::neutral(0).len(), 0);
    let three = RectList::neutral(3);
    assert_eq!(three.len(), 3);
    assert_eq!(three.to_vec(), vec![(0, 0, 0, 0), (0, 0, 0, 0), (0, 0, 0, 0)]);
    // more than fit in place
    let many = RectList::neutral(40);
    assert_eq!(many.len(), 40);
    assert_eq!(many.to_vec(), vec![(0, 0, 0, 0); 40]);
}

#[test]
fn data_is_recorded_one_after_the_other() {
    let mut data = DataBuffer::new();
    assert_eq!(data.add(&vec![1, 2, 3]), Some(DataPointer { offset: 0, size: 3 }));
    assert_eq!(data.add(&vec![4; 32]), Some(DataPointer { offset: 3, size: 32 }));
    assert_eq!(data.len(), 35);
    assert_eq!(data.bytes()[2], 3);
    assert_eq!(data.count(DataPointer { offset: 3, size: 32 }), Some(2));
    assert_eq!(data.count(DataPointer { offset: 3, size: 33 }), None);
    assert_eq!(data.count(DataPointer { offset: 4, size: 32 }), None);
    assert_eq!(data.count(DataPointer { offset: 35, size: 0 }), Some(0));
    data.reset();
    assert_eq!(data.len(), 0);
}

#[test]
fn main_targets_are_their_own_last_reference() {
    let mut heap: Heap<Backend> = Heap::new();
    let dim = (800, 600, 1, texture::AaMode::Multi(4));
    let (color, depth) =
        create_main_targets_raw(&mut heap, dim, SurfaceType::R8_G8_B8_A8, SurfaceType::D24_S8);
    assert_eq!(color.get_dimensions(), dim);
    assert_eq!(depth.get_dimensions(), dim);
    assert_eq!(color.resource, TargetView::Surface(0));
    assert_eq!(depth.resource, TargetView::Surface(0));
    assert_eq!(color.get_texture().slot, 0);
    assert_eq!(depth.get_texture().slot, 1);
    let info = color.get_texture().get_info();
    assert_eq!(info.levels, 1);
    assert_eq!(info.kind, texture::Kind::D2(800, 600, texture::AaMode::Multi(4)));
    assert_eq!(info.format, SurfaceType::R8_G8_B8_A8);
    assert_eq!(info.bind, RENDER_TARGET | TRANSFER_SRC);
    assert_eq!(info.usage, Usage::Data);
    assert_eq!(depth.get_texture().get_info().bind, DEPTH_STENCIL | TRANSFER_SRC);
    assert_eq!(depth.get_texture().get_info().format, SurfaceType::D24_S8);
    assert_eq!(*color.get_texture().resource(), Image::Surface(0));
    assert_eq!(heap.textures.count(0), 1);
    assert_eq!(heap.textures.count(1), 1);
    assert_eq!(heap.rtvs.count(0), 1);
    assert_eq!(heap.dsvs.count(0), 1);
    color.release(&mut heap);
    assert!(heap.textures.get(0).is_none());
    assert!(heap.rtvs.get(0).is_none());
    assert!(heap.textures.get(1).is_some());
}

#[test]
fn queues_follow_the_version() {
    let desktop = Version { is_embedded: false, major: 4, minor: 3 };
    let old = Version { is_embedded: false, major: 4, minor: 2 };
    let embedded = Version { is_embedded: true, major: 3, minor: 1 };
    let small = Version { is_embedded: true, major: 3, minor: 0 };
    assert!(desktop.supports_compute());
    assert!(!old.supports_compute());
    assert!(embedded.supports_compute());
    assert!(!small.supports_compute());
    assert!(Version { is_embedded: false, major: 5, minor: 0 }.is_at_least(false, 4, 3));
    assert!(!desktop.is_at_least(true, 3, 1));
    let adapter = Adapter::new(String::from("renderer"), &desktop);
    assert_eq!(adapter.queue_type, QueueType::General);
    assert_eq!(adapter.get_info().name, "renderer");
    assert_eq!(adapter.get_info().vendor, 0);
    assert_eq!(adapter.get_info().software_rendering, false);
    assert_eq!(adapter.get_queue_families().1, QueueType::General);
    assert_eq!(Adapter::new(String::from("r"), &old).queue_type, QueueType::Graphics);
    assert_eq!(QueueFamily.num_queues(), 1);
}

fn share(srgb: bool, embedded: bool, vaos: bool) -> Share {
    Share::new(
        Version { is_embedded: embedded, major: 3, minor: 3 },
        Features {
            draw_instanced: false,
            draw_instanced_base: false,
            draw_indexed_base: false,
            draw_indexed_instanced: false,
            draw_indexed_instanced_base_vertex: false,
            draw_indexed_instanced_base: false,
            srgb_color: srgb,
        },
        Limits { max_viewports: 1 },
        PrivateCaps {
            array_buffer_supported: vaos,
            buffer_storage_supported: false,
            sync_supported: false,
        },
        false,
    )
}

#[test]
fn opening_sets_the_context_up() {
    let adapter = Adapter::new(String::from("r"), &Version { is_embedded: false, major: 3, minor: 3 });
    let opened = adapter.open(&share(true, false, true), QueueType::Graphics, 1, 6);
    assert_eq!(
        opened.calls,
        vec![
            Call::Enable { cap: 0x8DB9 },
            Call::PixelStorei { name: 0x0CF5, value: 1 },
            Call::Enable { cap: 0x8642 },
            Call::BindVertexArray { array: 6 },
        ]
    );
    assert_eq!(opened.gpu.graphics_queues.len(), 1);
    assert_eq!(opened.gpu.general_queues.len(), 0);
    assert_eq!(opened.gpu.compute_queues.len(), 0);
    assert_eq!(opened.gpu.transfer_queues.len(), 0);
    assert_eq!(opened.gpu.graphics_queues[0].vao, 6);
    assert_eq!(opened.gpu.graphics_queues[0].max_resource_count, Some(999999));
    let plain = adapter.open(&share(false, true, false), QueueType::General, 0, 0);
    assert_eq!(plain.calls, vec![Call::PixelStorei { name: 0x0CF5, value: 1 }]);
    assert_eq!(plain.gpu.general_queues.len(), 0);
}

#[test]
fn buffers_are_bound_by_their_role() {
    assert_eq!(role_to_target(buffer::Role::Vertex), 0x8892);
    assert_eq!(role_to_target(buffer::Role::Index), 0x8893);
    assert_eq!(role_to_target(buffer::Role::Constant), 0x8A11);
    assert_eq!(role_to_target(buffer::Role::Staging), 0x8892);
}

#[test]
fn native_values_are_what_they_were_made_of() {
    assert_eq!(Fence::new(12).0, 12);
    assert_eq!(ResourceView::new_buffer(9), ResourceView { object: 9, bind: TEXTURE_BUFFER, owned: true });
    assert_eq!(ResourceView::new_texture(9, 0x0DE1), ResourceView { object: 9, bind: 0x0DE1, owned: false });
    assert_eq!(TEXTURE_BUFFER, 0x8C2A);
    assert!(Level::Primary != Level::Secondary);
}

#[test]
fn typed_handles_show_what_is_underneath() {
    let mut heap: Heap<Backend> = Heap::new();
    let mut pool: Manager<Backend> = Manager::new();
    let info = buffer::Info {
        role: buffer::Role::Constant,
        usage: Usage::Dynamic,
        bind: 0,
        size: 64,
        stride: 16,
    };
    let raw = pool.make_buffer(&mut heap, 3, info, None);
    let typed: Buffer<Backend, [u32; 4]> = Typed::new(raw);
    assert_eq!(typed.len(), 4);
    assert_eq!(typed.get_info().size, 64);
    assert_eq!(typed.raw().slot, 0);
    assert_eq!(heap.buffers.get(0).unwrap().len(16), 4);
    let tex_info = texture::Info {
        kind: texture::Kind::Cube(8),
        levels: 4,
        format: SurfaceType::R16,
        bind: 0,
        usage: Usage::Data,
    };
    let tex = pool.make_texture(&mut heap, Image::Texture(1), tex_info);
    let typed: Texture<Backend, u16> = Typed::new(tex);
    assert_eq!(typed.get_info().levels, 4);
    assert_eq!(typed.get_info().kind, texture::Kind::Cube(8));
}

#[test]
fn pools_pass_on_to_the_backend() {
    let mut raw = RawCommandPool::new(2);
    let index = raw.acquire_command_buffer();
    assert_eq!(index, 0);
    raw.buffers[0].buf.push(Command::Dispatch(1, 1, 1));
    raw.buffers[0].data.add(&vec![0; 16]);
    let mut pool = GeneralCommandPool(raw);
    pool.reserve(3);
    assert_eq!(pool.0.room, 5);
    assert_eq!(pool.0.buffers[0].buf.len(), 1);
    pool.reset();
    assert_eq!(pool.0.buffers.len(), 1);
    assert_eq!(pool.0.buffers[0].buf.len(), 0);
    assert_eq!(pool.0.buffers[0].data.len(), 0);
    assert_eq!(pool.0.room, 5);
    pool.reserve(usize::MAX);
    assert_eq!(pool.0.room, usize::MAX);

    let mut graphics = GraphicsCommandPool(RawCommandPool::new(0));
    graphics.reserve(1);
    graphics.reset();
    assert_eq!(graphics.0.room, 1);
    let mut compute = ComputeCommandPool(RawCommandPool::new(0));
    compute.reserve(2);
    compute.reset();
    assert_eq!(compute.0.room, 2);
    let mut transfer = TransferCommandPool(RawCommandPool::new(0));
    transfer.reserve(3);
    transfer.reset();
    assert_eq!(transfer.0.room, 3);
    let mut direct = RawCommandPool::new(1);
    PoolOps::reserve(&mut direct, 1);
    PoolOps::reset(&mut direct);
    assert_eq!(direct.room, 2);
}

//! The adapter: what a context turned out to be, and how a queue is opened
//! on it.

use vstd::prelude::*;
use crate::format::SurfaceType;
use crate::gl::call::{Call, FRAMEBUFFER_SRGB, PROGRAM_POINT_SIZE, UNPACK_ALIGNMENT};
use crate::gl::info::Version;
use crate::gl::native;
use crate::gl::{Backend, CommandQueue, QueueFamily, Share};
use crate::handle::{
    Heap, HeapView, Manager, Producer, RawDepthStencilView, RawRenderTargetView, RawTexture,
};
use crate::memory::{Usage, DEPTH_STENCIL, RENDER_TARGET, TRANSFER_SRC};
use crate::texture;

verus! {

/// What the queues of a family can do.
#[derive(Clone, Copy, Debug, PartialEq, Eq, Structural)]
pub enum QueueType {
    General,
    Graphics,
    Compute,
    Transfer,
}

/// What is known of an adapter.
pub struct AdapterInfo {
    pub name: String,
    pub vendor: usize,
    pub device: usize,
    pub software_rendering: bool,
}

/// A context, seen as the one adapter that it stands for.
pub struct Adapter {
    pub adapter_info: AdapterInfo,
    pub queue_type: QueueType,
}

/// The queues of an opened adapter, by what they can do.
pub struct Gpu {
    pub general_queues: Vec<CommandQueue>,
    pub graphics_queues: Vec<CommandQueue>,
    pub compute_queues: Vec<CommandQueue>,
    pub transfer_queues: Vec<CommandQueue>,
}

/// What opening an adapter asks for.
pub struct Opened {
    pub gpu: Gpu,
    /// The calls that set the context up, in order.
    pub calls: Vec<Call>,
}

/// The calls that set a context up for good: conversion to sRGB where there
/// is such a thing, tightly packed pixel rows, point sizes from the shader
/// on desktop versions, and the queue's vertex array object bound where
/// there are such objects.
pub open spec fn setup_calls(share: Share, vao: u32) -> Seq<Call> {
    (if share.features.srgb_color {
        seq![Call::Enable { cap: FRAMEBUFFER_SRGB }]
    } else {
        seq![]
    }) + seq![Call::PixelStorei { name: UNPACK_ALIGNMENT, value: 1 }] + (if !share.version.is_embedded {
        seq![Call::Enable { cap: PROGRAM_POINT_SIZE }]
    } else {
        seq![]
    }) + (if share.private_caps.array_buffer_supported {
        seq![Call::BindVertexArray { array: vao }]
    } else {
        seq![]
    })
}

/// `queues` is `number` fresh queues with `vao` as their vertex array object.
pub open spec fn fresh_queues(queues: Seq<CommandQueue>, number: nat, vao: u32) -> bool {
    &&& queues.len() == number
    &&& forall|i: int|
        0 <= i < queues.len() ==> (#[trigger] queues[i]).vao == vao && queues[i].state
            == crate::gl::State::new_spec() && queues[i].frame_handles@
            == crate::handle::ManagerView::empty() && queues[i].max_resource_count == Some(
            999999usize,
        )
}

impl Adapter {
    /// The adapter of a context whose renderer calls itself `name`. Its
    /// queues do everything where the version has compute shaders, and
    /// graphics elsewhere.
    pub fn new(name: String, version: &Version) -> (adapter: Adapter)
        ensures
            adapter.adapter_info.name == name,
            adapter.adapter_info.vendor == 0,
            adapter.adapter_info.device == 0,
            !adapter.adapter_info.software_rendering,
            adapter.queue_type == if version.has_compute() {
                QueueType::General
            } else {
                QueueType::Graphics
            },
    {
        let queue_type = if version.supports_compute() {
            QueueType::General
        } else {
            QueueType::Graphics
        };
        Adapter {
            adapter_info: AdapterInfo { name, vendor: 0, device: 0, software_rendering: false },
            queue_type,
        }
    }

    /// Opens the adapter with at most one queue of the given type. `vao` is
    /// the vertex array object made for the queue, or zero where there are
    /// no such objects.
    pub fn open(&self, share: &Share, queue_type: QueueType, num_queues: u32, vao: u32) -> (opened:
        Opened)
        requires
            num_queues <= 1,
        ensures
            opened.calls@ == setup_calls(*share, vao),
            fresh_queues(
                opened.gpu.general_queues@,
                if queue_type is General {
                    num_queues as nat
                } else {
                    0
                },
                vao,
            ),
            fresh_queues(
                opened.gpu.graphics_queues@,
                if queue_type is Graphics {
                    num_queues as nat
                } else {
                    0
                },
                vao,
            ),
            fresh_queues(
                opened.gpu.compute_queues@,
                if queue_type is Compute {
                    num_queues as nat
                } else {
                    0
                },
                vao,
            ),
            fresh_queues(
                opened.gpu.transfer_queues@,
                if queue_type is Transfer {
                    num_queues as nat
                } else {
                    0
                },
                vao,
            ),
    {
        let mut calls: Vec<Call> = Vec::new();
        if share.features.srgb_color {
            calls.push(Call::Enable { cap: FRAMEBUFFER_SRGB });
        }
        calls.push(Call::PixelStorei { name: UNPACK_ALIGNMENT, value: 1 });
        if !share.version.is_embedded {
            calls.push(Call::Enable { cap: PROGRAM_POINT_SIZE });
        }
        if share.private_caps.array_buffer_supported {
            calls.push(Call::BindVertexArray { array: vao });
        }
        assert(calls@ =~= setup_calls(*share, vao));
        let mut gpu = Gpu {
            general_queues: Vec::new(),
            graphics_queues: Vec::new(),
            compute_queues: Vec::new(),
            transfer_queues: Vec::new(),
        };
        if num_queues == 1 {
            match queue_type {
                QueueType::General => {
                    gpu.general_queues.push(CommandQueue::new(vao));
                },
                QueueType::Graphics => {
                    gpu.graphics_queues.push(CommandQueue::new(vao));
                },
                QueueType::Compute => {
                    gpu.compute_queues.push(CommandQueue::new(vao));
                },
                QueueType::Transfer => {
                    gpu.transfer_queues.push(CommandQueue::new(vao));
                },
            }
        }
        Opened { gpu, calls }
    }

    /// What is known of the adapter.
    pub fn get_info(&self) -> (info: &AdapterInfo)
        ensures
            *info == self.adapter_info,
    {
        &self.adapter_info
    }

    /// The one family of queues, and what its queues can do.
    pub fn get_queue_families(&self) -> (family: (QueueFamily, QueueType))
        ensures
            family.1 == self.queue_type,
    {
        (QueueFamily, self.queue_type)
    }
}

/// The description of a texture that stands for an attachment of the main
/// framebuffer.
pub open spec fn main_target_info(dim: texture::Dimensions, format: SurfaceType, bind: u8) -> texture::Info {
    texture::Info {
        levels: 1,
        kind: texture::Kind::D2(dim.0, dim.1, dim.3),
        format,
        bind,
        usage: Usage::Data,
    }
}

/// Makes the views that stand for the colour and the depth attachment of the
/// main framebuffer. Their native objects are the renderbuffer zero. Each
/// view is the only reference to itself, and the only one to its texture.
pub fn create_main_targets_raw(
    heap: &mut Heap<Backend>,
    dim: texture::Dimensions,
    color_format: SurfaceType,
    depth_format: SurfaceType,
) -> (targets: (RawRenderTargetView<Backend>, RawDepthStencilView<Backend>))
    ensures
        targets.0 == (RawRenderTargetView::<Backend> {
            slot: old(heap)@.rtvs.len() as usize,
            resource: native::TargetView::Surface(0),
            texture: RawTexture {
                slot: old(heap)@.textures.len() as usize,
                resource: native::Image::Surface(0),
                info: main_target_info(dim, color_format, RENDER_TARGET | TRANSFER_SRC),
            },
            dimensions: dim,
        }),
        targets.1 == (RawDepthStencilView::<Backend> {
            slot: old(heap)@.dsvs.len() as usize,
            resource: native::TargetView::Surface(0),
            texture: RawTexture {
                slot: (old(heap)@.textures.len() + 1) as usize,
                resource: native::Image::Surface(0),
                info: main_target_info(dim, depth_format, DEPTH_STENCIL | TRANSFER_SRC),
            },
            dimensions: dim,
        }),
        final(heap)@ == (HeapView {
            textures: old(heap)@.textures.push(
                Some(
                    crate::arena::Slot {
                        value: texture::Raw::<Backend> {
                            resource: native::Image::Surface(0),
                            info: main_target_info(dim, color_format, RENDER_TARGET | TRANSFER_SRC),
                        },
                        refs: 1,
                    },
                ),
            ).push(
                Some(
                    crate::arena::Slot {
                        value: texture::Raw::<Backend> {
                            resource: native::Image::Surface(0),
                            info: main_target_info(dim, depth_format, DEPTH_STENCIL | TRANSFER_SRC),
                        },
                        refs: 1,
                    },
                ),
            ),
            rtvs: old(heap)@.rtvs.push(
                Some(crate::arena::Slot { value: native::TargetView::Surface(0), refs: 1 }),
            ),
            dsvs: old(heap)@.dsvs.push(
                Some(crate::arena::Slot { value: native::TargetView::Surface(0), refs: 1 }),
            ),
            ..old(heap)@
        }),
{
    let mut temp: Manager<Backend> = Manager::new();
    proof {
        heap.textures.lemma_len_fits();
        heap.rtvs.lemma_len_fits();
        heap.dsvs.lemma_len_fits();
    }
    let color_tex = temp.make_texture(
        heap,
        native::Image::Surface(0),
        texture::Info {
            levels: 1,
            kind: texture::Kind::D2(dim.0, dim.1, dim.3),
            format: color_format,
            bind: RENDER_TARGET | TRANSFER_SRC,
            usage: Usage::Data,
        },
    );
    proof {
        heap.textures.lemma_len_fits();
    }
    let depth_tex = temp.make_texture(
        heap,
        native::Image::Surface(0),
        texture::Info {
            levels: 1,
            kind: texture::Kind::D2(dim.0, dim.1, dim.3),
            format: depth_format,
            bind: DEPTH_STENCIL | TRANSFER_SRC,
            usage: Usage::Data,
        },
    );
    let m_color = temp.make_rtv(heap, native::TargetView::Surface(0), &color_tex, dim);
    let m_ds = temp.make_dsv(heap, native::TargetView::Surface(0), &depth_tex, dim);
    proof {
        reveal_with_fuel(crate::arena::released_all, 4);
        assert(temp@.textures =~= seq![color_tex.slot, depth_tex.slot]);
        assert(temp@.rtvs =~= seq![m_color.slot]);
        assert(temp@.dsvs =~= seq![m_ds.slot]);
        assert(temp@.buffers =~= Seq::<usize>::empty());
    }
    temp.clear(heap);
    color_tex.release(heap);
    depth_tex.release(heap);
    assert(heap@.textures =~= old(heap)@.textures.push(
        Some(
            crate::arena::Slot {
                value: texture::Raw::<Backend> {
                    resource: native::Image::Surface(0),
                    info: main_target_info(dim, color_format, RENDER_TARGET | TRANSFER_SRC),
                },
                refs: 1,
            },
        ),
    ).push(
        Some(
            crate::arena::Slot {
                value: texture::Raw::<Backend> {
                    resource: native::Image::Surface(0),
                    info: main_target_info(dim, depth_format, DEPTH_STENCIL | TRANSFER_SRC),
                },
                refs: 1,
            },
        ),
    ));
    assert(heap@.rtvs =~= old(heap)@.rtvs.push(
        Some(crate::arena::Slot { value: native::TargetView::Surface(0), refs: 1 }),
    ));
    assert(heap@.dsvs =~= old(heap)@.dsvs.push(
        Some(crate::arena::Slot { value: native::TargetView::Surface(0), refs: 1 }),
    ));
    (m_color, m_ds)
}

} // verus!

//! Cleanup: what is destroyed at the end of a frame, and with which calls.
//!
//! The queue lets go of what the frame referred to. Then the pool is swept:
//! every resource that nothing but the pool refers to any more is handed
//! out, and the calls that delete its native object are made. A buffer that
//! is destroyed while its memory is mapped for a time is unmapped first. A
//! buffer whose mapping notes a fence is not destroyed, whatever refers to
//! it: work of the GPU on it may still be under way, and it stays in the
//! pool until the fence was observed and a later cleanup finds it.

use vstd::prelude::*;
use crate::arena::{
    lemma_second_sparing_sweep_is_idle, lemma_second_sweep_is_idle, lemma_spared_survives_sweep,
    live, swept, swept_but, Arena,
};
use crate::command::mapped;
use crate::buffer;
use crate::gl::call::Call;
use crate::gl::device::{
    lemma_observed_fence_is_noted_nowhere, noted_fence, notes, observed, role_to_target, target_of,
    unmap_calls, MappingKind,
};
use crate::gl::submit::{gate_of, Buffers, Fences};
use crate::gl::native;
use crate::gl::{Backend, CommandQueue, Share};
use crate::handle::{HeapView, ManagerView, Swept};
use crate::texture;

verus! {

/// The mapping of the buffer in slot `id` notes a fence that was not
/// observed yet: work of the GPU on the buffer may still be under way.
pub open spec fn pending(a: Buffers, id: int) -> bool {
    mapped(a, id) && noted_fence(gate_of(a, id)).is_some()
}

/// The slots of the buffers on which work of the GPU may still be under way.
pub open spec fn pending_buffers(a: Buffers) -> Set<usize> {
    Set::new(|id: usize| pending(a, id as int))
}

/// The calls that destroy a buffer: it is unmapped first where its memory is
/// mapped for a time and is mapped now.
pub open spec fn buffer_calls(raw: buffer::Raw<Backend>) -> Seq<Call> {
    let unmap = match raw.mapping {
        Some(mapping) => if mapping.resource.kind is Temporary {
            unmap_calls(mapping.resource.pointer, target_of(raw.info.role), raw.resource)
        } else {
            seq![]
        },
        None => seq![],
    };
    unmap + seq![Call::DeleteBuffers { buffer: raw.resource }]
}

/// The call that destroys a texture.
pub open spec fn texture_calls(raw: texture::Raw<Backend>) -> Seq<Call> {
    match raw.resource {
        native::Image::Surface(surface) => seq![Call::DeleteRenderbuffers { surface }],
        native::Image::Texture(texture) => seq![Call::DeleteTextures { texture }],
    }
}

/// The call that destroys a shader resource view: its texture goes with it
/// where the view owns it.
pub open spec fn view_calls(view: native::ResourceView) -> Seq<Call> {
    if view.owned {
        seq![Call::DeleteTextures { texture: view.object }]
    } else {
        seq![]
    }
}

/// The call that destroys a sampler, where it is a sampler object.
pub open spec fn sampler_calls(sampler: native::FatSampler) -> Seq<Call> {
    match sampler {
        native::FatSampler::Sampler(name) => if name != 0 {
            seq![Call::DeleteSamplers { sampler: name }]
        } else {
            seq![]
        },
        native::FatSampler::Info(_) => seq![],
    }
}

/// The call that destroys a fence.
pub open spec fn fence_calls(fence: native::Fence) -> Seq<Call> {
    seq![Call::DeleteSync { sync: fence.0 }]
}

/// The calls that destroy the buffers in `items`, first to last.
pub open spec fn all_buffer_calls(items: Seq<(usize, buffer::Raw<Backend>)>) -> Seq<Call>
    decreases items.len(),
{
    if items.len() == 0 {
        seq![]
    } else {
        buffer_calls(items[0].1) + all_buffer_calls(items.drop_first())
    }
}

/// The calls that destroy the textures in `items`, first to last.
pub open spec fn all_texture_calls(items: Seq<(usize, texture::Raw<Backend>)>) -> Seq<Call>
    decreases items.len(),
{
    if items.len() == 0 {
        seq![]
    } else {
        texture_calls(items[0].1) + all_texture_calls(items.drop_first())
    }
}

/// The calls that destroy the shader resource views in `items`, first to
/// last.
pub open spec fn all_view_calls(items: Seq<(usize, native::ResourceView)>) -> Seq<Call>
    decreases items.len(),
{
    if items.len() == 0 {
        seq![]
    } else {
        view_calls(items[0].1) + all_view_calls(items.drop_first())
    }
}

/// The calls that destroy the samplers in `items`, first to last.
pub open spec fn all_sampler_calls(items: Seq<(usize, native::FatSampler)>) -> Seq<Call>
    decreases items.len(),
{
    if items.len() == 0 {
        seq![]
    } else {
        sampler_calls(items[0].1) + all_sampler_calls(items.drop_first())
    }
}

/// The calls that destroy the fences in `items`, first to last.
pub open spec fn all_fence_calls(items: Seq<(usize, native::Fence)>) -> Seq<Call>
    decreases items.len(),
{
    if items.len() == 0 {
        seq![]
    } else {
        fence_calls(items[0].1) + all_fence_calls(items.drop_first())
    }
}

/// The calls that destroy what a sweep handed out: buffers, textures, shader
/// resource views, samplers and fences, in this order. What is of another
/// kind has no native object of its own to delete.
pub open spec fn destroy_calls(d: Swept<Backend>) -> Seq<Call> {
    all_buffer_calls(d.buffers@) + all_texture_calls(d.textures@) + all_view_calls(d.srvs@)
        + all_sampler_calls(d.samplers@) + all_fence_calls(d.fences@)
}

/// What the sweep of a cleanup makes of the heap `h0` and the pool `m0`: each
/// kind is swept, and among the buffers those are spared on which work of
/// the GPU may still be under way.
pub open spec fn cleaned_up(
    h0: HeapView<Backend>,
    m0: ManagerView,
    h1: HeapView<Backend>,
    m1: ManagerView,
    d: Swept<Backend>,
) -> bool {
    &&& swept_but(
        h0.buffers,
        m0.buffers,
        pending_buffers(h0.buffers),
        h1.buffers,
        m1.buffers,
        d.buffers@,
    )
    &&& swept(h0.shaders, m0.shaders, h1.shaders, m1.shaders, d.shaders@)
    &&& swept(h0.programs, m0.programs, h1.programs, m1.programs, d.programs@)
    &&& swept(h0.psos, m0.psos, h1.psos, m1.psos, d.psos@)
    &&& swept(h0.textures, m0.textures, h1.textures, m1.textures, d.textures@)
    &&& swept(h0.srvs, m0.srvs, h1.srvs, m1.srvs, d.srvs@)
    &&& swept(h0.uavs, m0.uavs, h1.uavs, m1.uavs, d.uavs@)
    &&& swept(h0.rtvs, m0.rtvs, h1.rtvs, m1.rtvs, d.rtvs@)
    &&& swept(h0.dsvs, m0.dsvs, h1.dsvs, m1.dsvs, d.dsvs@)
    &&& swept(h0.samplers, m0.samplers, h1.samplers, m1.samplers, d.samplers@)
    &&& swept(h0.fences, m0.fences, h1.fences, m1.fences, d.fences@)
    &&& swept(h0.semaphores, m0.semaphores, h1.semaphores, m1.semaphores, d.semaphores@)
}

/// What a cleanup asks for.
pub struct Cleanup {
    /// The calls that destroy the native objects, in order.
    pub calls: Vec<Call>,
    /// What was handed out for destruction.
    pub destroyed: Swept<Backend>,
}

/// Adds the calls that destroy the buffers in `items`.
fn destroy_buffers(items: &Vec<(usize, buffer::Raw<Backend>)>, calls: &mut Vec<Call>)
    ensures
        final(calls)@ == old(calls)@ + all_buffer_calls(items@),
{
    let n = items.len();
    let mut i: usize = 0;
    assert(items@.subrange(0, n as int) =~= items@);
    while i < n
        invariant
            i <= n,
            n == items@.len(),
            calls@ + all_buffer_calls(items@.subrange(i as int, n as int)) == old(calls)@ + all_buffer_calls(
                items@,
            ),
        decreases n - i,
    {
        let ghost rest = items@.subrange(i as int, n as int);
        let ghost made = calls@;
        assert(rest[0] == items@[i as int]);
        assert(rest.drop_first() =~= items@.subrange(i as int + 1, n as int));
        let item = &items[i].1;
        match &item.mapping {
            Some(mapping) => {
                match &mapping.resource.kind {
                    MappingKind::Temporary => {
                        if mapping.resource.pointer != 0 {
                            let target = role_to_target(item.info.role);
                            calls.push(Call::BindBuffer { target, buffer: item.resource });
                            calls.push(Call::UnmapBuffer { target });
                        }
                    },
                    MappingKind::Persistent(_) => {},
                }
            },
            None => {},
        }
        calls.push(Call::DeleteBuffers { buffer: item.resource });
        proof {
            let one = buffer_calls(items@[i as int].1);
            let tail = all_buffer_calls(rest.drop_first());
            assert(calls@ =~= made + one);
            assert(calls@ + tail =~= made + (one + tail));
        }
        i = i + 1;
    }
    assert(items@.subrange(n as int, n as int) =~= Seq::<(usize, buffer::Raw<Backend>)>::empty());
    assert(calls@ + Seq::<Call>::empty() =~= calls@);
}

/// Adds the calls that destroy the textures in `items`.
fn destroy_textures(items: &Vec<(usize, texture::Raw<Backend>)>, calls: &mut Vec<Call>)
    ensures
        final(calls)@ == old(calls)@ + all_texture_calls(items@),
{
    let n = items.len();
    let mut i: usize = 0;
    assert(items@.subrange(0, n as int) =~= items@);
    while i < n
        invariant
            i <= n,
            n == items@.len(),
            calls@ + all_texture_calls(items@.subrange(i as int, n as int)) == old(calls)@ + all_texture_calls(
                items@,
            ),
        decreases n - i,
    {
        let ghost rest = items@.subrange(i as int, n as int);
        let ghost made = calls@;
        assert(rest[0] == items@[i as int]);
        assert(rest.drop_first() =~= items@.subrange(i as int + 1, n as int));
        let item = &items[i].1;
        match item.resource {
            native::Image::Surface(surface) => {
                calls.push(Call::DeleteRenderbuffers { surface });
            },
            native::Image::Texture(texture) => {
                calls.push(Call::DeleteTextures { texture });
            },
        }
        proof {
            let one = texture_calls(items@[i as int].1);
            let tail = all_texture_calls(rest.drop_first());
            assert(calls@ =~= made + one);
            assert(calls@ + tail =~= made + (one + tail));
        }
        i = i + 1;
    }
    assert(items@.subrange(n as int, n as int) =~= Seq::<(usize, texture::Raw<Backend>)>::empty());
    assert(calls@ + Seq::<Call>::empty() =~= calls@);
}

/// Adds the calls that destroy the shader resource views in `items`.
fn destroy_views(items: &Vec<(usize, native::ResourceView)>, calls: &mut Vec<Call>)
    ensures
        final(calls)@ == old(calls)@ + all_view_calls(items@),
{
    let n = items.len();
    let mut i: usize = 0;
    assert(items@.subrange(0, n as int) =~= items@);
    while i < n
        invariant
            i <= n,
            n == items@.len(),
            calls@ + all_view_calls(items@.subrange(i as int, n as int)) == old(calls)@ + all_view_calls(
                items@,
            ),
        decreases n - i,
    {
        let ghost rest = items@.subrange(i as int, n as int);
        let ghost made = calls@;
        assert(rest[0] == items@[i as int]);
        assert(rest.drop_first() =~= items@.subrange(i as int + 1, n as int));
        let item = &items[i].1;
        if item.owned {
            calls.push(Call::DeleteTextures { texture: item.object });
        }
        proof {
            let one = view_calls(items@[i as int].1);
            let tail = all_view_calls(rest.drop_first());
            assert(calls@ =~= made + one);
            assert(calls@ + tail =~= made + (one + tail));
        }
        i = i + 1;
    }
    assert(items@.subrange(n as int, n as int) =~= Seq::<(usize, native::ResourceView)>::empty());
    assert(calls@ + Seq::<Call>::empty() =~= calls@);
}

/// Adds the calls that destroy the samplers in `items`.
fn destroy_samplers(items: &Vec<(usize, native::FatSampler)>, calls: &mut Vec<Call>)
    ensures
        final(calls)@ == old(calls)@ + all_sampler_calls(items@),
{
    let n = items.len();
    let mut i: usize = 0;
    assert(items@.subrange(0, n as int) =~= items@);
    while i < n
        invariant
            i <= n,
            n == items@.len(),
            calls@ + all_sampler_calls(items@.subrange(i as int, n as int)) == old(calls)@ + all_sampler_calls(
                items@,
            ),
        decreases n - i,
    {
        let ghost rest = items@.subrange(i as int, n as int);
        let ghost made = calls@;
        assert(rest[0] == items@[i as int]);
        assert(rest.drop_first() =~= items@.subrange(i as int + 1, n as int));
        let item = &items[i].1;
        match item {
            native::FatSampler::Sampler(name) => {
                if *name != 0 {
                    calls.push(Call::DeleteSamplers { sampler: *name });
                }
            },
            native::FatSampler::Info(_) => {},
        }
        proof {
            let one = sampler_calls(items@[i as int].1);
            let tail = all_sampler_calls(rest.drop_first());
            assert(calls@ =~= made + one);
            assert(calls@ + tail =~= made + (one + tail));
        }
        i = i + 1;
    }
    assert(items@.subrange(n as int, n as int) =~= Seq::<(usize, native::FatSampler)>::empty());
    assert(calls@ + Seq::<Call>::empty() =~= calls@);
}

/// Adds the calls that destroy the fences in `items`.
fn destroy_fences(items: &Vec<(usize, native::Fence)>, calls: &mut Vec<Call>)
    ensures
        final(calls)@ == old(calls)@ + all_fence_calls(items@),
{
    let n = items.len();
    let mut i: usize = 0;
    assert(items@.subrange(0, n as int) =~= items@);
    while i < n
        invariant
            i <= n,
            n == items@.len(),
            calls@ + all_fence_calls(items@.subrange(i as int, n as int)) == old(calls)@ + all_fence_calls(
                items@,
            ),
        decreases n - i,
    {
        let ghost rest = items@.subrange(i as int, n as int);
        let ghost made = calls@;
        assert(rest[0] == items@[i as int]);
        assert(rest.drop_first() =~= items@.subrange(i as int + 1, n as int));
        let item = &items[i].1;
        calls.push(Call::DeleteSync { sync: item.0 });
        proof {
            let one = fence_calls(items@[i as int].1);
            let tail = all_fence_calls(rest.drop_first());
            assert(calls@ =~= made + one);
            assert(calls@ + tail =~= made + (one + tail));
        }
        i = i + 1;
    }
    assert(items@.subrange(n as int, n as int) =~= Seq::<(usize, native::Fence)>::empty());
    assert(calls@ + Seq::<Call>::empty() =~= calls@);
}

/// The buffers of `list` on which work of the GPU may still be under way.
fn find_pending(buffers: &Arena<buffer::Raw<Backend>>, list: &Vec<usize>) -> (found: Vec<usize>)
    ensures
        forall|id: usize|
            found@.contains(id) <==> list@.contains(id) && pending(buffers@, id as int),
{
    let mut found: Vec<usize> = Vec::new();
    let n = list.len();
    let mut i: usize = 0;
    while i < n
        invariant
            i <= n,
            n == list@.len(),
            forall|id: usize|
                found@.contains(id) <==> (exists|k: int| 0 <= k < i && list@[k] == id) && pending(
                    buffers@,
                    id as int,
                ),
        decreases n - i,
    {
        let id = list[i];
        let noted = match buffers.get(id) {
            Some(raw) => match &raw.mapping {
                Some(mapping) => match &mapping.resource.kind {
                    MappingKind::Persistent(status) => status.gpu_access.is_some(),
                    MappingKind::Temporary => false,
                },
                None => false,
            },
            None => false,
        };
        let ghost before = found@;
        if noted {
            found.push(id);
        }
        proof {
            assert forall|x: usize|
                found@.contains(x) <==> (exists|k: int| 0 <= k < i + 1 && list@[k] == x)
                    && pending(buffers@, x as int) by {
                if noted {
                    assert(found@ =~= before.push(id));
                    if found@.contains(x) {
                        let p = choose|p: int| 0 <= p < found@.len() && found@[p] == x;
                        if p < before.len() {
                            assert(before[p] == x);
                            assert(before.contains(x));
                        } else {
                            assert(list@[i as int] == x);
                        }
                    }
                    if before.contains(x) {
                        let p = choose|p: int| 0 <= p < before.len() && before[p] == x;
                        assert(found@[p] == x);
                    }
                    if x == id {
                        assert(found@[before.len() as int] == x);
                    }
                }
                if exists|k: int| 0 <= k < i + 1 && list@[k] == x {
                    let k = choose|k: int| 0 <= k < i + 1 && list@[k] == x;
                    if k < i {
                        assert(0 <= k < i && list@[k] == x);
                    }
                }
                if exists|k: int| 0 <= k < i && list@[k] == x {
                    let k = choose|k: int| 0 <= k < i && list@[k] == x;
                    assert(0 <= k < i + 1 && list@[k] == x);
                }
            }
        }
        i = i + 1;
    }
    proof {
        assert forall|id: usize|
            found@.contains(id) <==> list@.contains(id) && pending(buffers@, id as int) by {
            if list@.contains(id) {
                let k = choose|k: int| 0 <= k < list@.len() && list@[k] == id;
                assert(0 <= k < n && list@[k] == id);
            }
        }
    }
    found
}

impl CommandQueue {
    /// Ends a frame. The queue lets go of everything that the frame referred
    /// to. Then every resource of the pool that nothing else refers to is
    /// handed out, with the calls that destroy it; but a buffer whose
    /// mapping notes a fence stays until the fence was observed.
    pub fn cleanup(&mut self, share: &mut Share) -> (out: Cleanup)
        ensures
            final(share).setup() == old(share).setup(),
            final(self).vao == old(self).vao,
            final(self).state == old(self).state,
            final(self).max_resource_count == old(self).max_resource_count,
            final(self).frame_handles@ == ManagerView::empty(),
            cleaned_up(
                old(share).heap@.released_all(old(self).frame_handles@),
                old(share).handles@,
                final(share).heap@,
                final(share).handles@,
                out.destroyed,
            ),
            out.calls@ == destroy_calls(out.destroyed),
    {
        self.frame_handles.clear(&mut share.heap);
        let spared = find_pending(&share.heap.buffers, &share.handles.buffers);
        let ghost before = share.heap@.buffers;
        let ghost list = share.handles@.buffers;
        let buffers = share.heap.buffers.sweep_sparing(&mut share.handles.buffers, &spared);
        proof {
            assert forall|id: usize| list.contains(id) implies (spared@.to_set().contains(id)
                <==> pending_buffers(before).contains(id)) by {}
            assert(swept_but(
                before,
                list,
                pending_buffers(before),
                share.heap@.buffers,
                share.handles@.buffers,
                buffers@,
            ));
        }
        let shaders = share.heap.shaders.sweep(&mut share.handles.shaders);
        let programs = share.heap.programs.sweep(&mut share.handles.programs);
        let psos = share.heap.psos.sweep(&mut share.handles.psos);
        let textures = share.heap.textures.sweep(&mut share.handles.textures);
        let srvs = share.heap.srvs.sweep(&mut share.handles.srvs);
        let uavs = share.heap.uavs.sweep(&mut share.handles.uavs);
        let rtvs = share.heap.rtvs.sweep(&mut share.handles.rtvs);
        let dsvs = share.heap.dsvs.sweep(&mut share.handles.dsvs);
        let samplers = share.heap.samplers.sweep(&mut share.handles.samplers);
        let fences = share.heap.fences.sweep(&mut share.handles.fences);
        let semaphores = share.heap.semaphores.sweep(&mut share.handles.semaphores);
        let mut calls: Vec<Call> = Vec::new();
        destroy_buffers(&buffers, &mut calls);
        destroy_textures(&textures, &mut calls);
        destroy_views(&srvs, &mut calls);
        destroy_samplers(&samplers, &mut calls);
        destroy_fences(&fences, &mut calls);
        let destroyed = Swept {
            buffers,
            shaders,
            programs,
            psos,
            textures,
            srvs,
            uavs,
            rtvs,
            dsvs,
            samplers,
            fences,
            semaphores,
        };
        assert(calls@ =~= destroy_calls(destroyed));
        Cleanup { calls, destroyed }
    }
}

/// A cleanup that follows a cleanup, with nothing done to the heap, the pool
/// or the queue in between, destroys nothing: it hands out no resource,
/// makes no call and leaves the heap as it found it.
pub proof fn lemma_second_cleanup_is_idle(
    h0: HeapView<Backend>,
    m0: ManagerView,
    h1: HeapView<Backend>,
    m1: ManagerView,
    first: Swept<Backend>,
    h2: HeapView<Backend>,
    m2: ManagerView,
    second: Swept<Backend>,
)
    requires
        cleaned_up(h0, m0, h1, m1, first),
        cleaned_up(h1.released_all(ManagerView::empty()), m1, h2, m2, second),
    ensures
        second.total() == 0,
        destroy_calls(second) == Seq::<Call>::empty(),
        h2 == h1,
{
    assert forall|id: usize|
        pending_buffers(h0.buffers).contains(id) && live(h1.buffers, id as int) implies pending_buffers(
        h1.buffers,
    ).contains(id) by {
        lemma_spared_survives_sweep(
            h0.buffers,
            m0.buffers,
            pending_buffers(h0.buffers),
            h1.buffers,
            m1.buffers,
            first.buffers@,
            id,
        );
    }
    lemma_second_sparing_sweep_is_idle(
        h0.buffers,
        m0.buffers,
        pending_buffers(h0.buffers),
        h1.buffers,
        m1.buffers,
        first.buffers@,
        pending_buffers(h1.buffers),
        h2.buffers,
        m2.buffers,
        second.buffers@,
    );
    lemma_second_sweep_is_idle(
        h0.shaders,
        m0.shaders,
        h1.shaders,
        m1.shaders,
        first.shaders@,
        h2.shaders,
        m2.shaders,
        second.shaders@,
    );
    lemma_second_sweep_is_idle(
        h0.programs,
        m0.programs,
        h1.programs,
        m1.programs,
        first.programs@,
        h2.programs,
        m2.programs,
        second.programs@,
    );
    lemma_second_sweep_is_idle(
        h0.psos,
        m0.psos,
        h1.psos,
        m1.psos,
        first.psos@,
        h2.psos,
        m2.psos,
        second.psos@,
    );
    lemma_second_sweep_is_idle(
        h0.textures,
        m0.textures,
        h1.textures,
        m1.textures,
        first.textures@,
        h2.textures,
        m2.textures,
        second.textures@,
    );
    lemma_second_sweep_is_idle(
        h0.srvs,
        m0.srvs,
        h1.srvs,
        m1.srvs,
        first.srvs@,
        h2.srvs,
        m2.srvs,
        second.srvs@,
    );
    lemma_second_sweep_is_idle(
        h0.uavs,
        m0.uavs,
        h1.uavs,
        m1.uavs,
        first.uavs@,
        h2.uavs,
        m2.uavs,
        second.uavs@,
    );
    lemma_second_sweep_is_idle(
        h0.rtvs,
        m0.rtvs,
        h1.rtvs,
        m1.rtvs,
        first.rtvs@,
        h2.rtvs,
        m2.rtvs,
        second.rtvs@,
    );
    lemma_second_sweep_is_idle(
        h0.dsvs,
        m0.dsvs,
        h1.dsvs,
        m1.dsvs,
        first.dsvs@,
        h2.dsvs,
        m2.dsvs,
        second.dsvs@,
    );
    lemma_second_sweep_is_idle(
        h0.samplers,
        m0.samplers,
        h1.samplers,
        m1.samplers,
        first.samplers@,
        h2.samplers,
        m2.samplers,
        second.samplers@,
    );
    lemma_second_sweep_is_idle(
        h0.fences,
        m0.fences,
        h1.fences,
        m1.fences,
        first.fences@,
        h2.fences,
        m2.fences,
        second.fences@,
    );
    lemma_second_sweep_is_idle(
        h0.semaphores,
        m0.semaphores,
        h1.semaphores,
        m1.semaphores,
        first.semaphores@,
        h2.semaphores,
        m2.semaphores,
        second.semaphores@,
    );
    assert(destroy_calls(second) =~= Seq::<Call>::empty());
}

/// A buffer on which work of the GPU may still be under way survives the
/// cleanup: it is not handed out, no call is made for it, and it stays in
/// its slot and in the pool as it was.
pub proof fn lemma_pending_buffer_survives_cleanup(
    h0: HeapView<Backend>,
    m0: ManagerView,
    h1: HeapView<Backend>,
    m1: ManagerView,
    d: Swept<Backend>,
    id: usize,
)
    requires
        cleaned_up(h0, m0, h1, m1, d),
        pending(h0.buffers, id as int),
    ensures
        h1.buffers[id as int] == h0.buffers[id as int],
        pending(h1.buffers, id as int),
        !crate::arena::ids_of(d.buffers@).contains(id),
        crate::arena::occurrences(m1.buffers, id) == crate::arena::occurrences(m0.buffers, id),
{
    lemma_spared_survives_sweep(
        h0.buffers,
        m0.buffers,
        pending_buffers(h0.buffers),
        h1.buffers,
        m1.buffers,
        d.buffers@,
        id,
    );
}

/// Once the fence that a buffer's mapping noted was observed, no work of the
/// GPU on the buffer is under way any more: the next cleanup will not spare
/// it.
pub proof fn lemma_observed_buffer_is_not_pending(b: Buffers, f: Fences, fence: usize, id: usize)
    requires
        notes(b, id as int, fence),
    ensures
        !pending(observed(b, f, 0, fence).0, id as int),
        observed(b, f, 0, fence).0.len() == b.len(),
        live(observed(b, f, 0, fence).0, id as int),
{
    lemma_observed_fence_is_noted_nowhere(b, f, 0, fence, id as int);
}

} // verus!

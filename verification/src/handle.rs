//! Handles to pooled resources, and the managers that keep count of them.
//!
//! A resource lives in a slot of a [`Heap`], next to the number of
//! references to it. A handle names the slot; a [`Manager`] is a list of
//! references, one list for each kind of resource. The manager that makes a
//! resource holds the first reference, and the handle it returns the second.
//! Referencing a handle into a manager counts one more, and clearing the
//! manager gives each one back. A manager's sweep hands out, for
//! destruction, the resources to which its own entry is the last reference:
//! so nothing is destroyed while a handle or another manager still refers to
//! it, and nothing is destroyed twice.

use std::marker::PhantomData;
use vstd::prelude::*;
use crate::arena::{
    absorbed, created, lemma_second_sweep_is_idle, noted, occurrences, released, released_all,
    retained, swept, Arena, Slot,
};
use crate::memory::Typed;
use crate::{buffer, shade, texture, Backend};

verus! {

/// A handle to a buffer.
pub struct RawBuffer<B: Backend> {
    pub slot: usize,
    pub resource: B::Buffer,
    pub info: buffer::Info,
}

impl<B: Backend> RawBuffer<B> {
    /// The native buffer.
    pub fn resource(&self) -> (r: &B::Buffer)
        ensures
            *r == self.resource,
    {
        &self.resource
    }

    /// What the buffer was made as.
    pub fn get_info(&self) -> (r: &buffer::Info)
        ensures
            *r == self.info,
    {
        &self.info
    }

    /// Gives this handle back.
    pub fn release(self, heap: &mut Heap<B>)
        ensures
            final(heap)@ == (HeapView {
                buffers: released(old(heap)@.buffers, self.slot as int),
                ..old(heap)@
            }),
    {
        let _ = heap.buffers.release(self.slot);
    }

    /// Another handle to the same buffer, where one more can be counted.
    pub fn duplicate(&self, heap: &mut Heap<B>) -> (copy: Option<RawBuffer<B>>)
        ensures
            final(heap)@ == (HeapView {
                buffers: retained(old(heap)@.buffers, self.slot as int),
                ..old(heap)@
            }),
            copy == if crate::arena::can_retain(old(heap)@.buffers, self.slot as int) {
                Some(*self)
            } else {
                None
            },
    {
        if heap.buffers.retain(self.slot) {
            Some(RawBuffer { slot: self.slot, resource: self.resource, info: self.info })
        } else {
            None
        }
    }
}

/// A handle to a buffer of elements of type `T`.
pub struct Buffer<B: Backend, T> {
    pub raw: RawBuffer<B>,
    pub marker: PhantomData<T>,
}

impl<B: Backend, T> Typed for Buffer<B, T> {
    type Raw = RawBuffer<B>;

    open spec fn untyped(&self) -> RawBuffer<B> {
        self.raw
    }

    fn new(handle: RawBuffer<B>) -> (typed: Buffer<B, T>) {
        Buffer { raw: handle, marker: PhantomData }
    }

    fn raw(&self) -> (raw: &RawBuffer<B>) {
        &self.raw
    }
}

impl<B: Backend, T> Buffer<B, T> {
    /// What the buffer was made as.
    pub fn get_info(&self) -> (r: &buffer::Info)
        ensures
            *r == self.raw.info,
    {
        &self.raw.info
    }

    /// The number of elements in the buffer.
    pub fn len(&self) -> (n: usize)
        requires
            vstd::layout::size_of::<T>() != 0,
        ensures
            n == self.raw.info.size as nat / vstd::layout::size_of::<T>(),
    {
        self.raw.info.size / core::mem::size_of::<T>()
    }
}

/// A handle to a shader.
pub struct Shader<B: Backend> {
    pub slot: usize,
    pub resource: B::Shader,
}

impl<B: Backend> Shader<B> {
    /// Gives this handle back.
    pub fn release(self, heap: &mut Heap<B>)
        ensures
            final(heap)@ == (HeapView {
                shaders: released(old(heap)@.shaders, self.slot as int),
                ..old(heap)@
            }),
    {
        let _ = heap.shaders.release(self.slot);
    }
}

/// A handle to a program.
pub struct Program<B: Backend> {
    pub slot: usize,
    pub resource: B::Program,
    pub info: shade::ProgramInfo,
}

impl<B: Backend> Program<B> {
    /// The native program.
    pub fn resource(&self) -> (r: &B::Program)
        ensures
            *r == self.resource,
    {
        &self.resource
    }

    /// What is known of the program's interface.
    pub fn get_info(&self) -> (r: &shade::ProgramInfo)
        ensures
            *r == self.info,
    {
        &self.info
    }

    /// Gives this handle back.
    pub fn release(self, heap: &mut Heap<B>)
        ensures
            final(heap)@ == (HeapView {
                programs: released(old(heap)@.programs, self.slot as int),
                ..old(heap)@
            }),
    {
        let _ = heap.programs.release(self.slot);
    }
}

/// A handle to a pipeline state, which refers to its program.
pub struct RawPipelineState<B: Backend> {
    pub slot: usize,
    pub resource: B::PipelineStateObject,
    pub program: Program<B>,
}

impl<B: Backend> RawPipelineState<B> {
    /// Gives this handle back, and with it its reference to the program.
    pub fn release(self, heap: &mut Heap<B>)
        ensures
            final(heap)@ == (HeapView {
                psos: released(old(heap)@.psos, self.slot as int),
                programs: released(old(heap)@.programs, self.program.slot as int),
                ..old(heap)@
            }),
    {
        let _ = heap.psos.release(self.slot);
        let _ = heap.programs.release(self.program.slot);
    }
}

/// A handle to a texture.
pub struct RawTexture<B: Backend> {
    pub slot: usize,
    pub resource: B::Texture,
    pub info: texture::Info,
}

impl<B: Backend> RawTexture<B> {
    /// The native texture.
    pub fn resource(&self) -> (r: &B::Texture)
        ensures
            *r == self.resource,
    {
        &self.resource
    }

    /// What the texture was made as.
    pub fn get_info(&self) -> (r: &texture::Info)
        ensures
            *r == self.info,
    {
        &self.info
    }

    /// Gives this handle back.
    pub fn release(self, heap: &mut Heap<B>)
        ensures
            final(heap)@ == (HeapView {
                textures: released(old(heap)@.textures, self.slot as int),
                ..old(heap)@
            }),
    {
        let _ = heap.textures.release(self.slot);
    }

    /// Another handle to the same texture, where one more can be counted.
    pub fn duplicate(&self, heap: &mut Heap<B>) -> (copy: Option<RawTexture<B>>)
        ensures
            final(heap)@ == (HeapView {
                textures: retained(old(heap)@.textures, self.slot as int),
                ..old(heap)@
            }),
            copy == if crate::arena::can_retain(old(heap)@.textures, self.slot as int) {
                Some(*self)
            } else {
                None
            },
    {
        if heap.textures.retain(self.slot) {
            Some(RawTexture { slot: self.slot, resource: self.resource, info: self.info })
        } else {
            None
        }
    }
}

/// A handle to a texture whose texels have the surface type `S`.
pub struct Texture<B: Backend, S> {
    pub raw: RawTexture<B>,
    pub marker: PhantomData<S>,
}

impl<B: Backend, S> Typed for Texture<B, S> {
    type Raw = RawTexture<B>;

    open spec fn untyped(&self) -> RawTexture<B> {
        self.raw
    }

    fn new(handle: RawTexture<B>) -> (typed: Texture<B, S>) {
        Texture { raw: handle, marker: PhantomData }
    }

    fn raw(&self) -> (raw: &RawTexture<B>) {
        &self.raw
    }
}

impl<B: Backend, S> Texture<B, S> {
    /// What the texture was made as.
    pub fn get_info(&self) -> (r: &texture::Info)
        ensures
            *r == self.raw.info,
    {
        &self.raw.info
    }
}

/// What a view looks at. The view refers to it, and so keeps it alive.
pub enum ViewSource<B: Backend> {
    Buffer(RawBuffer<B>),
    Texture(RawTexture<B>),
}

impl<B: Backend> ViewSource<B> {
    /// The heap after the reference to what the view looks at was given back.
    pub open spec fn released_in(self, heap: HeapView<B>) -> HeapView<B> {
        match self {
            ViewSource::Buffer(b) => HeapView { buffers: released(heap.buffers, b.slot as int), ..heap },
            ViewSource::Texture(t) => HeapView {
                textures: released(heap.textures, t.slot as int),
                ..heap
            },
        }
    }

    /// Gives the reference to what the view looks at back.
    pub fn release(self, heap: &mut Heap<B>)
        ensures
            final(heap)@ == self.released_in(old(heap)@),
    {
        match self {
            ViewSource::Buffer(b) => b.release(heap),
            ViewSource::Texture(t) => t.release(heap),
        }
    }
}

/// A handle to a shader resource view.
pub struct RawShaderResourceView<B: Backend> {
    pub slot: usize,
    pub resource: B::ShaderResourceView,
    pub source: ViewSource<B>,
}

impl<B: Backend> RawShaderResourceView<B> {
    /// Gives this handle back, and with it its reference to what it looks at.
    pub fn release(self, heap: &mut Heap<B>)
        ensures
            final(heap)@ == self.source.released_in(
                HeapView { srvs: released(old(heap)@.srvs, self.slot as int), ..old(heap)@ },
            ),
    {
        let _ = heap.srvs.release(self.slot);
        self.source.release(heap);
    }
}

/// A handle to a shader resource view of elements of type `T`.
pub struct ShaderResourceView<B: Backend, T> {
    pub raw: RawShaderResourceView<B>,
    pub marker: PhantomData<T>,
}

impl<B: Backend, T> Typed for ShaderResourceView<B, T> {
    type Raw = RawShaderResourceView<B>;

    open spec fn untyped(&self) -> RawShaderResourceView<B> {
        self.raw
    }

    fn new(handle: RawShaderResourceView<B>) -> (typed: ShaderResourceView<B, T>) {
        ShaderResourceView { raw: handle, marker: PhantomData }
    }

    fn raw(&self) -> (raw: &RawShaderResourceView<B>) {
        &self.raw
    }
}

/// A handle to an unordered access view.
pub struct RawUnorderedAccessView<B: Backend> {
    pub slot: usize,
    pub resource: B::UnorderedAccessView,
    pub source: ViewSource<B>,
}

impl<B: Backend> RawUnorderedAccessView<B> {
    /// Gives this handle back, and with it its reference to what it looks at.
    pub fn release(self, heap: &mut Heap<B>)
        ensures
            final(heap)@ == self.source.released_in(
                HeapView { uavs: released(old(heap)@.uavs, self.slot as int), ..old(heap)@ },
            ),
    {
        let _ = heap.uavs.release(self.slot);
        self.source.release(heap);
    }
}

/// A handle to an unordered access view of elements of type `T`.
pub struct UnorderedAccessView<B: Backend, T> {
    pub raw: RawUnorderedAccessView<B>,
    pub marker: PhantomData<T>,
}

impl<B: Backend, T> Typed for UnorderedAccessView<B, T> {
    type Raw = RawUnorderedAccessView<B>;

    open spec fn untyped(&self) -> RawUnorderedAccessView<B> {
        self.raw
    }

    fn new(handle: RawUnorderedAccessView<B>) -> (typed: UnorderedAccessView<B, T>) {
        UnorderedAccessView { raw: handle, marker: PhantomData }
    }

    fn raw(&self) -> (raw: &RawUnorderedAccessView<B>) {
        &self.raw
    }
}

/// A handle to a render target view, which refers to its texture.
pub struct RawRenderTargetView<B: Backend> {
    pub slot: usize,
    pub resource: B::RenderTargetView,
    pub texture: RawTexture<B>,
    pub dimensions: texture::Dimensions,
}

impl<B: Backend> RawRenderTargetView<B> {
    /// The size of the target.
    pub fn get_dimensions(&self) -> (dim: texture::Dimensions)
        ensures
            dim == self.dimensions,
    {
        self.dimensions
    }

    /// The texture that is rendered into.
    pub fn get_texture(&self) -> (tex: &RawTexture<B>)
        ensures
            *tex == self.texture,
    {
        &self.texture
    }

    /// Gives this handle back, and with it its reference to the texture.
    pub fn release(self, heap: &mut Heap<B>)
        ensures
            final(heap)@ == (HeapView {
                rtvs: released(old(heap)@.rtvs, self.slot as int),
                textures: released(old(heap)@.textures, self.texture.slot as int),
                ..old(heap)@
            }),
    {
        let _ = heap.rtvs.release(self.slot);
        let _ = heap.textures.release(self.texture.slot);
    }
}

/// A handle to a depth-stencil view, which refers to its texture.
pub struct RawDepthStencilView<B: Backend> {
    pub slot: usize,
    pub resource: B::DepthStencilView,
    pub texture: RawTexture<B>,
    pub dimensions: texture::Dimensions,
}

impl<B: Backend> RawDepthStencilView<B> {
    /// The size of the target.
    pub fn get_dimensions(&self) -> (dim: texture::Dimensions)
        ensures
            dim == self.dimensions,
    {
        self.dimensions
    }

    /// The texture that holds depth and stencil.
    pub fn get_texture(&self) -> (tex: &RawTexture<B>)
        ensures
            *tex == self.texture,
    {
        &self.texture
    }

    /// Gives this handle back, and with it its reference to the texture.
    pub fn release(self, heap: &mut Heap<B>)
        ensures
            final(heap)@ == (HeapView {
                dsvs: released(old(heap)@.dsvs, self.slot as int),
                textures: released(old(heap)@.textures, self.texture.slot as int),
                ..old(heap)@
            }),
    {
        let _ = heap.dsvs.release(self.slot);
        let _ = heap.textures.release(self.texture.slot);
    }
}

/// A handle to a render target view whose texels have the format `T`.
pub struct RenderTargetView<B: Backend, T> {
    pub raw: RawRenderTargetView<B>,
    pub marker: PhantomData<T>,
}

impl<B: Backend, T> RenderTargetView<B, T> {
    /// The size of the target.
    pub fn get_dimensions(&self) -> (dim: texture::Dimensions)
        ensures
            dim == self.raw.dimensions,
    {
        self.raw.get_dimensions()
    }
}

impl<B: Backend, T> Typed for RenderTargetView<B, T> {
    type Raw = RawRenderTargetView<B>;

    open spec fn untyped(&self) -> RawRenderTargetView<B> {
        self.raw
    }

    fn new(handle: RawRenderTargetView<B>) -> (typed: RenderTargetView<B, T>) {
        RenderTargetView { raw: handle, marker: PhantomData }
    }

    fn raw(&self) -> (raw: &RawRenderTargetView<B>) {
        &self.raw
    }
}

/// A handle to a depth-stencil view whose texels have the format `T`.
pub struct DepthStencilView<B: Backend, T> {
    pub raw: RawDepthStencilView<B>,
    pub marker: PhantomData<T>,
}

impl<B: Backend, T> DepthStencilView<B, T> {
    /// The size of the target.
    pub fn get_dimensions(&self) -> (dim: texture::Dimensions)
        ensures
            dim == self.raw.dimensions,
    {
        self.raw.get_dimensions()
    }
}

impl<B: Backend, T> Typed for DepthStencilView<B, T> {
    type Raw = RawDepthStencilView<B>;

    open spec fn untyped(&self) -> RawDepthStencilView<B> {
        self.raw
    }

    fn new(handle: RawDepthStencilView<B>) -> (typed: DepthStencilView<B, T>) {
        DepthStencilView { raw: handle, marker: PhantomData }
    }

    fn raw(&self) -> (raw: &RawDepthStencilView<B>) {
        &self.raw
    }
}

/// A handle to a sampler.
pub struct Sampler<B: Backend> {
    pub slot: usize,
    pub resource: B::Sampler,
    pub info: texture::SamplerInfo,
}

impl<B: Backend> Sampler<B> {
    /// What the sampler was made as.
    pub fn get_info(&self) -> (r: &texture::SamplerInfo)
        ensures
            *r == self.info,
    {
        &self.info
    }

    /// Gives this handle back.
    pub fn release(self, heap: &mut Heap<B>)
        ensures
            final(heap)@ == (HeapView {
                samplers: released(old(heap)@.samplers, self.slot as int),
                ..old(heap)@
            }),
    {
        let _ = heap.samplers.release(self.slot);
    }
}

/// A handle to a fence. What the fence holds changes when it is signalled
/// anew, so it is read where it lives, in the heap.
pub struct Fence<B: Backend> {
    pub slot: usize,
    pub marker: PhantomData<B>,
}

impl<B: Backend> Fence<B> {
    /// Gives this handle back.
    pub fn release(self, heap: &mut Heap<B>)
        ensures
            final(heap)@ == (HeapView {
                fences: released(old(heap)@.fences, self.slot as int),
                ..old(heap)@
            }),
    {
        let _ = heap.fences.release(self.slot);
    }

    /// Another handle to the same fence, where one more can be counted.
    pub fn duplicate(&self, heap: &mut Heap<B>) -> (copy: Option<Fence<B>>)
        ensures
            final(heap)@ == (HeapView {
                fences: retained(old(heap)@.fences, self.slot as int),
                ..old(heap)@
            }),
            copy == if crate::arena::can_retain(old(heap)@.fences, self.slot as int) {
                Some(*self)
            } else {
                None
            },
    {
        if heap.fences.retain(self.slot) {
            Some(Fence { slot: self.slot, marker: PhantomData })
        } else {
            None
        }
    }
}

/// A handle to a semaphore.
pub struct Semaphore<B: Backend> {
    pub slot: usize,
    pub marker: PhantomData<B>,
}

impl<B: Backend> Semaphore<B> {
    /// Gives this handle back.
    pub fn release(self, heap: &mut Heap<B>)
        ensures
            final(heap)@ == (HeapView {
                semaphores: released(old(heap)@.semaphores, self.slot as int),
                ..old(heap)@
            }),
    {
        let _ = heap.semaphores.release(self.slot);
    }
}


/// Where the resources live: one arena for each kind.
pub struct Heap<B: Backend> {
    pub buffers: Arena<buffer::Raw<B>>,
    pub shaders: Arena<B::Shader>,
    pub programs: Arena<shade::Program<B>>,
    pub psos: Arena<B::PipelineStateObject>,
    pub textures: Arena<texture::Raw<B>>,
    pub srvs: Arena<B::ShaderResourceView>,
    pub uavs: Arena<B::UnorderedAccessView>,
    pub rtvs: Arena<B::RenderTargetView>,
    pub dsvs: Arena<B::DepthStencilView>,
    pub samplers: Arena<B::Sampler>,
    pub fences: Arena<B::Fence>,
    pub semaphores: Arena<B::Semaphore>,
}

/// The slots of a [`Heap`], kind by kind.
pub struct HeapView<B: Backend> {
    pub buffers: Seq<Option<Slot<buffer::Raw<B>>>>,
    pub shaders: Seq<Option<Slot<B::Shader>>>,
    pub programs: Seq<Option<Slot<shade::Program<B>>>>,
    pub psos: Seq<Option<Slot<B::PipelineStateObject>>>,
    pub textures: Seq<Option<Slot<texture::Raw<B>>>>,
    pub srvs: Seq<Option<Slot<B::ShaderResourceView>>>,
    pub uavs: Seq<Option<Slot<B::UnorderedAccessView>>>,
    pub rtvs: Seq<Option<Slot<B::RenderTargetView>>>,
    pub dsvs: Seq<Option<Slot<B::DepthStencilView>>>,
    pub samplers: Seq<Option<Slot<B::Sampler>>>,
    pub fences: Seq<Option<Slot<B::Fence>>>,
    pub semaphores: Seq<Option<Slot<B::Semaphore>>>,
}

impl<B: Backend> View for Heap<B> {
    type V = HeapView<B>;

    open spec fn view(&self) -> HeapView<B> {
        HeapView {
            buffers: self.buffers@,
            shaders: self.shaders@,
            programs: self.programs@,
            psos: self.psos@,
            textures: self.textures@,
            srvs: self.srvs@,
            uavs: self.uavs@,
            rtvs: self.rtvs@,
            dsvs: self.dsvs@,
            samplers: self.samplers@,
            fences: self.fences@,
            semaphores: self.semaphores@,
        }
    }
}

impl<B: Backend> HeapView<B> {
    /// No slot of any kind.
    pub open spec fn empty() -> HeapView<B> {
        HeapView {
            buffers: Seq::empty(),
            shaders: Seq::empty(),
            programs: Seq::empty(),
            psos: Seq::empty(),
            textures: Seq::empty(),
            srvs: Seq::empty(),
            uavs: Seq::empty(),
            rtvs: Seq::empty(),
            dsvs: Seq::empty(),
            samplers: Seq::empty(),
            fences: Seq::empty(),
            semaphores: Seq::empty(),
        }
    }

    /// The slots after every reference in `lists` was given back.
    pub open spec fn released_all(self, lists: ManagerView) -> HeapView<B> {
        HeapView {
            buffers: released_all(self.buffers, lists.buffers),
            shaders: released_all(self.shaders, lists.shaders),
            programs: released_all(self.programs, lists.programs),
            psos: released_all(self.psos, lists.psos),
            textures: released_all(self.textures, lists.textures),
            srvs: released_all(self.srvs, lists.srvs),
            uavs: released_all(self.uavs, lists.uavs),
            rtvs: released_all(self.rtvs, lists.rtvs),
            dsvs: released_all(self.dsvs, lists.dsvs),
            samplers: released_all(self.samplers, lists.samplers),
            fences: released_all(self.fences, lists.fences),
            semaphores: released_all(self.semaphores, lists.semaphores),
        }
    }
}

impl<B: Backend> Heap<B> {
    /// A heap without resources.
    pub fn new() -> (heap: Heap<B>)
        ensures
            heap@ == HeapView::<B>::empty(),
    {
        Heap {
            buffers: Arena::new(),
            shaders: Arena::new(),
            programs: Arena::new(),
            psos: Arena::new(),
            textures: Arena::new(),
            srvs: Arena::new(),
            uavs: Arena::new(),
            rtvs: Arena::new(),
            dsvs: Arena::new(),
            samplers: Arena::new(),
            fences: Arena::new(),
            semaphores: Arena::new(),
        }
    }
}

/// The references that a [`Manager`] holds, kind by kind, as slot numbers.
pub struct ManagerView {
    pub buffers: Seq<usize>,
    pub shaders: Seq<usize>,
    pub programs: Seq<usize>,
    pub psos: Seq<usize>,
    pub textures: Seq<usize>,
    pub srvs: Seq<usize>,
    pub uavs: Seq<usize>,
    pub rtvs: Seq<usize>,
    pub dsvs: Seq<usize>,
    pub samplers: Seq<usize>,
    pub fences: Seq<usize>,
    pub semaphores: Seq<usize>,
}

impl ManagerView {
    /// No reference of any kind.
    pub open spec fn empty() -> ManagerView {
        ManagerView {
            buffers: Seq::empty(),
            shaders: Seq::empty(),
            programs: Seq::empty(),
            psos: Seq::empty(),
            textures: Seq::empty(),
            srvs: Seq::empty(),
            uavs: Seq::empty(),
            rtvs: Seq::empty(),
            dsvs: Seq::empty(),
            samplers: Seq::empty(),
            fences: Seq::empty(),
            semaphores: Seq::empty(),
        }
    }

    /// The number of references of all kinds, as far as it can be counted:
    /// the largest number there is where they are more.
    pub open spec fn counted(self) -> usize {
        if self.total() <= usize::MAX {
            self.total() as usize
        } else {
            usize::MAX
        }
    }

    /// The number of references of all kinds.
    pub open spec fn total(self) -> nat {
        self.buffers.len()
            + self.shaders.len()
            + self.programs.len()
            + self.psos.len()
            + self.textures.len()
            + self.srvs.len()
            + self.uavs.len()
            + self.rtvs.len()
            + self.dsvs.len()
            + self.samplers.len()
            + self.fences.len()
            + self.semaphores.len()
    }
}

/// The resources that a sweep handed out for destruction, kind by kind,
/// each with the number of the slot it lived in.
pub struct Swept<B: Backend> {
    pub buffers: Vec<(usize, buffer::Raw<B>)>,
    pub shaders: Vec<(usize, B::Shader)>,
    pub programs: Vec<(usize, shade::Program<B>)>,
    pub psos: Vec<(usize, B::PipelineStateObject)>,
    pub textures: Vec<(usize, texture::Raw<B>)>,
    pub srvs: Vec<(usize, B::ShaderResourceView)>,
    pub uavs: Vec<(usize, B::UnorderedAccessView)>,
    pub rtvs: Vec<(usize, B::RenderTargetView)>,
    pub dsvs: Vec<(usize, B::DepthStencilView)>,
    pub samplers: Vec<(usize, B::Sampler)>,
    pub fences: Vec<(usize, B::Fence)>,
    pub semaphores: Vec<(usize, B::Semaphore)>,
}

impl<B: Backend> Swept<B> {
    /// The number of resources handed out.
    pub open spec fn total(self) -> nat {
        self.buffers@.len()
            + self.shaders@.len()
            + self.programs@.len()
            + self.psos@.len()
            + self.textures@.len()
            + self.srvs@.len()
            + self.uavs@.len()
            + self.rtvs@.len()
            + self.dsvs@.len()
            + self.samplers@.len()
            + self.fences@.len()
            + self.semaphores@.len()
    }
}

/// What one sweep of the manager `m0` over the heap `h0` leaves behind:
/// for each kind, what [`swept`] says of that kind's slots and list.
pub open spec fn cleaned<B: Backend>(
    h0: HeapView<B>,
    m0: ManagerView,
    h1: HeapView<B>,
    m1: ManagerView,
    out: Swept<B>,
) -> bool {
    &&& swept(h0.buffers, m0.buffers, h1.buffers, m1.buffers, out.buffers@)
    &&& swept(h0.shaders, m0.shaders, h1.shaders, m1.shaders, out.shaders@)
    &&& swept(h0.programs, m0.programs, h1.programs, m1.programs, out.programs@)
    &&& swept(h0.psos, m0.psos, h1.psos, m1.psos, out.psos@)
    &&& swept(h0.textures, m0.textures, h1.textures, m1.textures, out.textures@)
    &&& swept(h0.srvs, m0.srvs, h1.srvs, m1.srvs, out.srvs@)
    &&& swept(h0.uavs, m0.uavs, h1.uavs, m1.uavs, out.uavs@)
    &&& swept(h0.rtvs, m0.rtvs, h1.rtvs, m1.rtvs, out.rtvs@)
    &&& swept(h0.dsvs, m0.dsvs, h1.dsvs, m1.dsvs, out.dsvs@)
    &&& swept(h0.samplers, m0.samplers, h1.samplers, m1.samplers, out.samplers@)
    &&& swept(h0.fences, m0.fences, h1.fences, m1.fences, out.fences@)
    &&& swept(h0.semaphores, m0.semaphores, h1.semaphores, m1.semaphores, out.semaphores@)
}

/// What taking over the references of `other` makes of the heap `h0` and the
/// manager `m0`: for each kind, one reference taken and noted for each entry
/// of `other`.
pub open spec fn extended<B: Backend>(
    h0: HeapView<B>,
    m0: ManagerView,
    other: ManagerView,
    h1: HeapView<B>,
    m1: ManagerView,
) -> bool {
    &&& (h1.buffers, m1.buffers) == absorbed(h0.buffers, m0.buffers, other.buffers)
    &&& (h1.shaders, m1.shaders) == absorbed(h0.shaders, m0.shaders, other.shaders)
    &&& (h1.programs, m1.programs) == absorbed(h0.programs, m0.programs, other.programs)
    &&& (h1.psos, m1.psos) == absorbed(h0.psos, m0.psos, other.psos)
    &&& (h1.textures, m1.textures) == absorbed(h0.textures, m0.textures, other.textures)
    &&& (h1.srvs, m1.srvs) == absorbed(h0.srvs, m0.srvs, other.srvs)
    &&& (h1.uavs, m1.uavs) == absorbed(h0.uavs, m0.uavs, other.uavs)
    &&& (h1.rtvs, m1.rtvs) == absorbed(h0.rtvs, m0.rtvs, other.rtvs)
    &&& (h1.dsvs, m1.dsvs) == absorbed(h0.dsvs, m0.dsvs, other.dsvs)
    &&& (h1.samplers, m1.samplers) == absorbed(h0.samplers, m0.samplers, other.samplers)
    &&& (h1.fences, m1.fences) == absorbed(h0.fences, m0.fences, other.fences)
    &&& (h1.semaphores, m1.semaphores) == absorbed(h0.semaphores, m0.semaphores, other.semaphores)
}

/// Reference lists for resources of every kind. A manager keeps what it
/// refers to alive; it is where resources are made, and where those that
/// nothing else refers to are found again.
pub struct Manager<B: Backend> {
    pub buffers: Vec<usize>,
    pub shaders: Vec<usize>,
    pub programs: Vec<usize>,
    pub psos: Vec<usize>,
    pub textures: Vec<usize>,
    pub srvs: Vec<usize>,
    pub uavs: Vec<usize>,
    pub rtvs: Vec<usize>,
    pub dsvs: Vec<usize>,
    pub samplers: Vec<usize>,
    pub fences: Vec<usize>,
    pub semaphores: Vec<usize>,
    pub marker: PhantomData<B>,
}

impl<B: Backend> View for Manager<B> {
    type V = ManagerView;

    open spec fn view(&self) -> ManagerView {
        ManagerView {
            buffers: self.buffers@,
            shaders: self.shaders@,
            programs: self.programs@,
            psos: self.psos@,
            textures: self.textures@,
            srvs: self.srvs@,
            uavs: self.uavs@,
            rtvs: self.rtvs@,
            dsvs: self.dsvs@,
            samplers: self.samplers@,
            fences: self.fences@,
            semaphores: self.semaphores@,
        }
    }
}

/// The sum of two lengths, or the largest number where the sum is larger.
fn capped_sum(a: usize, b: usize) -> (sum: usize)
    ensures
        sum == if a + b <= usize::MAX {
            a + b
        } else {
            usize::MAX as int
        },
{
    if a > usize::MAX - b {
        usize::MAX
    } else {
        a + b
    }
}

impl<B: Backend> Manager<B> {
    /// A manager that refers to nothing.
    pub fn new() -> (manager: Manager<B>)
        ensures
            manager@ == ManagerView::empty(),
    {
        Manager {
            buffers: Vec::new(),
            shaders: Vec::new(),
            programs: Vec::new(),
            psos: Vec::new(),
            textures: Vec::new(),
            srvs: Vec::new(),
            uavs: Vec::new(),
            rtvs: Vec::new(),
            dsvs: Vec::new(),
            samplers: Vec::new(),
            fences: Vec::new(),
            semaphores: Vec::new(),
            marker: PhantomData,
        }
    }

    /// Gives every reference back and forgets it. Nothing is destroyed: a
    /// resource that something else refers to lives on, and one whose last
    /// reference this was is dropped as it is.
    pub fn clear(&mut self, heap: &mut Heap<B>)
        ensures
            final(self)@ == ManagerView::empty(),
            final(heap)@ == old(heap)@.released_all(old(self)@),
    {
        heap.buffers.release_all(&mut self.buffers);
        heap.shaders.release_all(&mut self.shaders);
        heap.programs.release_all(&mut self.programs);
        heap.psos.release_all(&mut self.psos);
        heap.textures.release_all(&mut self.textures);
        heap.srvs.release_all(&mut self.srvs);
        heap.uavs.release_all(&mut self.uavs);
        heap.rtvs.release_all(&mut self.rtvs);
        heap.dsvs.release_all(&mut self.dsvs);
        heap.samplers.release_all(&mut self.samplers);
        heap.fences.release_all(&mut self.fences);
        heap.semaphores.release_all(&mut self.semaphores);
    }

    /// Takes a reference of its own to everything that `other` refers to.
    pub fn extend(&mut self, heap: &mut Heap<B>, other: &Manager<B>)
        ensures
            extended(old(heap)@, old(self)@, other@, final(heap)@, final(self)@),
    {
        heap.buffers.retain_all(&mut self.buffers, &other.buffers);
        heap.shaders.retain_all(&mut self.shaders, &other.shaders);
        heap.programs.retain_all(&mut self.programs, &other.programs);
        heap.psos.retain_all(&mut self.psos, &other.psos);
        heap.textures.retain_all(&mut self.textures, &other.textures);
        heap.srvs.retain_all(&mut self.srvs, &other.srvs);
        heap.uavs.retain_all(&mut self.uavs, &other.uavs);
        heap.rtvs.retain_all(&mut self.rtvs, &other.rtvs);
        heap.dsvs.retain_all(&mut self.dsvs, &other.dsvs);
        heap.samplers.retain_all(&mut self.samplers, &other.samplers);
        heap.fences.retain_all(&mut self.fences, &other.fences);
        heap.semaphores.retain_all(&mut self.semaphores, &other.semaphores);
    }

    /// The number of references held, of all kinds together; the largest
    /// number there is where they are more.
    pub fn count(&self) -> (n: usize)
        ensures
            n == self@.counted(),
    {
        let mut n: usize = 0;
        n = capped_sum(n, self.buffers.len());
        n = capped_sum(n, self.shaders.len());
        n = capped_sum(n, self.programs.len());
        n = capped_sum(n, self.psos.len());
        n = capped_sum(n, self.textures.len());
        n = capped_sum(n, self.srvs.len());
        n = capped_sum(n, self.uavs.len());
        n = capped_sum(n, self.rtvs.len());
        n = capped_sum(n, self.dsvs.len());
        n = capped_sum(n, self.samplers.len());
        n = capped_sum(n, self.fences.len());
        n = capped_sum(n, self.semaphores.len());
        n
    }

    /// Refers to a buffer, and returns the native buffer.
    pub fn ref_buffer<'a>(
        &mut self,
        heap: &mut Heap<B>,
        handle: &'a RawBuffer<B>,
    ) -> (native: &'a B::Buffer)
        ensures
            *native == handle.resource,
            final(heap)@ == (HeapView {
                buffers: noted(old(heap)@.buffers, old(self)@.buffers, handle.slot).0,
                ..old(heap)@
            }),
            final(self)@ == (ManagerView {
                buffers: noted(old(heap)@.buffers, old(self)@.buffers, handle.slot).1,
                ..old(self)@
            }),
    {
        let _ = heap.buffers.note(&mut self.buffers, handle.slot);
        &handle.resource
    }

    /// Refers to a shader, and returns the native shader.
    pub fn ref_shader<'a>(
        &mut self,
        heap: &mut Heap<B>,
        handle: &'a Shader<B>,
    ) -> (native: &'a B::Shader)
        ensures
            *native == handle.resource,
            final(heap)@ == (HeapView {
                shaders: noted(old(heap)@.shaders, old(self)@.shaders, handle.slot).0,
                ..old(heap)@
            }),
            final(self)@ == (ManagerView {
                shaders: noted(old(heap)@.shaders, old(self)@.shaders, handle.slot).1,
                ..old(self)@
            }),
    {
        let _ = heap.shaders.note(&mut self.shaders, handle.slot);
        &handle.resource
    }

    /// Refers to a program, and returns the native program.
    pub fn ref_program<'a>(
        &mut self,
        heap: &mut Heap<B>,
        handle: &'a Program<B>,
    ) -> (native: &'a B::Program)
        ensures
            *native == handle.resource,
            final(heap)@ == (HeapView {
                programs: noted(old(heap)@.programs, old(self)@.programs, handle.slot).0,
                ..old(heap)@
            }),
            final(self)@ == (ManagerView {
                programs: noted(old(heap)@.programs, old(self)@.programs, handle.slot).1,
                ..old(self)@
            }),
    {
        let _ = heap.programs.note(&mut self.programs, handle.slot);
        &handle.resource
    }

    /// Refers to a pipeline state and to its program, and returns the native
    /// objects of both.
    pub fn ref_pso<'a>(&mut self, heap: &mut Heap<B>, handle: &'a RawPipelineState<B>) -> (native: (
        &'a B::PipelineStateObject,
        &'a B::Program,
    ))
        ensures
            *native.0 == handle.resource,
            *native.1 == handle.program.resource,
            final(heap)@ == (HeapView {
                psos: noted(old(heap)@.psos, old(self)@.psos, handle.slot).0,
                programs: noted(old(heap)@.programs, old(self)@.programs, handle.program.slot).0,
                ..old(heap)@
            }),
            final(self)@ == (ManagerView {
                psos: noted(old(heap)@.psos, old(self)@.psos, handle.slot).1,
                programs: noted(old(heap)@.programs, old(self)@.programs, handle.program.slot).1,
                ..old(self)@
            }),
    {
        let _ = heap.psos.note(&mut self.psos, handle.slot);
        let _ = heap.programs.note(&mut self.programs, handle.program.slot);
        (&handle.resource, &handle.program.resource)
    }

    /// Refers to a texture, and returns the native texture.
    pub fn ref_texture<'a>(
        &mut self,
        heap: &mut Heap<B>,
        handle: &'a RawTexture<B>,
    ) -> (native: &'a B::Texture)
        ensures
            *native == handle.resource,
            final(heap)@ == (HeapView {
                textures: noted(old(heap)@.textures, old(self)@.textures, handle.slot).0,
                ..old(heap)@
            }),
            final(self)@ == (ManagerView {
                textures: noted(old(heap)@.textures, old(self)@.textures, handle.slot).1,
                ..old(self)@
            }),
    {
        let _ = heap.textures.note(&mut self.textures, handle.slot);
        &handle.resource
    }

    /// Refers to a shader resource view, and returns the native view.
    pub fn ref_srv<'a>(
        &mut self,
        heap: &mut Heap<B>,
        handle: &'a RawShaderResourceView<B>,
    ) -> (native: &'a B::ShaderResourceView)
        ensures
            *native == handle.resource,
            final(heap)@ == (HeapView {
                srvs: noted(old(heap)@.srvs, old(self)@.srvs, handle.slot).0,
                ..old(heap)@
            }),
            final(self)@ == (ManagerView {
                srvs: noted(old(heap)@.srvs, old(self)@.srvs, handle.slot).1,
                ..old(self)@
            }),
    {
        let _ = heap.srvs.note(&mut self.srvs, handle.slot);
        &handle.resource
    }

    /// Refers to an unordered access view, and returns the native view.
    pub fn ref_uav<'a>(
        &mut self,
        heap: &mut Heap<B>,
        handle: &'a RawUnorderedAccessView<B>,
    ) -> (native: &'a B::UnorderedAccessView)
        ensures
            *native == handle.resource,
            final(heap)@ == (HeapView {
                uavs: noted(old(heap)@.uavs, old(self)@.uavs, handle.slot).0,
                ..old(heap)@
            }),
            final(self)@ == (ManagerView {
                uavs: noted(old(heap)@.uavs, old(self)@.uavs, handle.slot).1,
                ..old(self)@
            }),
    {
        let _ = heap.uavs.note(&mut self.uavs, handle.slot);
        &handle.resource
    }

    /// Refers to a render target view and to its texture, and returns the
    /// native view.
    pub fn ref_rtv<'a>(
        &mut self,
        heap: &mut Heap<B>,
        handle: &'a RawRenderTargetView<B>,
    ) -> (native: &'a B::RenderTargetView)
        ensures
            *native == handle.resource,
            final(heap)@ == (HeapView {
                rtvs: noted(old(heap)@.rtvs, old(self)@.rtvs, handle.slot).0,
                textures: noted(old(heap)@.textures, old(self)@.textures, handle.texture.slot).0,
                ..old(heap)@
            }),
            final(self)@ == (ManagerView {
                rtvs: noted(old(heap)@.rtvs, old(self)@.rtvs, handle.slot).1,
                textures: noted(old(heap)@.textures, old(self)@.textures, handle.texture.slot).1,
                ..old(self)@
            }),
    {
        let _ = heap.rtvs.note(&mut self.rtvs, handle.slot);
        let _ = heap.textures.note(&mut self.textures, handle.texture.slot);
        &handle.resource
    }

    /// Refers to a depth-stencil view and to its texture, and returns the
    /// native view.
    pub fn ref_dsv<'a>(
        &mut self,
        heap: &mut Heap<B>,
        handle: &'a RawDepthStencilView<B>,
    ) -> (native: &'a B::DepthStencilView)
        ensures
            *native == handle.resource,
            final(heap)@ == (HeapView {
                dsvs: noted(old(heap)@.dsvs, old(self)@.dsvs, handle.slot).0,
                textures: noted(old(heap)@.textures, old(self)@.textures, handle.texture.slot).0,
                ..old(heap)@
            }),
            final(self)@ == (ManagerView {
                dsvs: noted(old(heap)@.dsvs, old(self)@.dsvs, handle.slot).1,
                textures: noted(old(heap)@.textures, old(self)@.textures, handle.texture.slot).1,
                ..old(self)@
            }),
    {
        let _ = heap.dsvs.note(&mut self.dsvs, handle.slot);
        let _ = heap.textures.note(&mut self.textures, handle.texture.slot);
        &handle.resource
    }

    /// Refers to a sampler, and returns the native sampler.
    pub fn ref_sampler<'a>(
        &mut self,
        heap: &mut Heap<B>,
        handle: &'a Sampler<B>,
    ) -> (native: &'a B::Sampler)
        ensures
            *native == handle.resource,
            final(heap)@ == (HeapView {
                samplers: noted(old(heap)@.samplers, old(self)@.samplers, handle.slot).0,
                ..old(heap)@
            }),
            final(self)@ == (ManagerView {
                samplers: noted(old(heap)@.samplers, old(self)@.samplers, handle.slot).1,
                ..old(self)@
            }),
    {
        let _ = heap.samplers.note(&mut self.samplers, handle.slot);
        &handle.resource
    }

    /// Refers to a fence, and returns the slot in the heap where it is read.
    pub fn ref_fence(&mut self, heap: &mut Heap<B>, handle: &Fence<B>) -> (slot: usize)
        ensures
            slot == handle.slot,
            final(heap)@ == (HeapView {
                fences: noted(old(heap)@.fences, old(self)@.fences, handle.slot).0,
                ..old(heap)@
            }),
            final(self)@ == (ManagerView {
                fences: noted(old(heap)@.fences, old(self)@.fences, handle.slot).1,
                ..old(self)@
            }),
    {
        let _ = heap.fences.note(&mut self.fences, handle.slot);
        handle.slot
    }

    /// Refers to a semaphore, and returns the slot in the heap where it is read.
    pub fn ref_semaphore(&mut self, heap: &mut Heap<B>, handle: &Semaphore<B>) -> (slot: usize)
        ensures
            slot == handle.slot,
            final(heap)@ == (HeapView {
                semaphores: noted(old(heap)@.semaphores, old(self)@.semaphores, handle.slot).0,
                ..old(heap)@
            }),
            final(self)@ == (ManagerView {
                semaphores: noted(old(heap)@.semaphores, old(self)@.semaphores, handle.slot).1,
                ..old(self)@
            }),
    {
        let _ = heap.semaphores.note(&mut self.semaphores, handle.slot);
        handle.slot
    }
}

/// What the device uses a manager for: to pool what it makes, and to find
/// again what nothing else refers to any more.
pub trait Producer<B: Backend>: Sized {
    /// The references held, kind by kind.
    spec fn lists(&self) -> ManagerView;

    /// Pools a new buffer, and returns the first handle to it.
    fn make_buffer(
        &mut self,
        heap: &mut Heap<B>,
        res: B::Buffer,
        info: buffer::Info,
        mapping: Option<B::Mapping>,
    ) -> (handle: RawBuffer<B>)
        ensures
            handle == (RawBuffer::<B> { slot: old(heap)@.buffers.len() as usize, resource: res, info }),
            final(heap)@ == (HeapView {
                buffers: created(old(heap)@.buffers, buffer::Raw::<B>::pooled(res, info, mapping)),
                ..old(heap)@
            }),
            final(self).lists() == (ManagerView {
                buffers: old(self).lists().buffers.push(old(heap)@.buffers.len() as usize),
                ..old(self).lists()
            }),
    ;

    /// Pools a new shader, and returns the first handle to it.
    fn make_shader(&mut self, heap: &mut Heap<B>, res: B::Shader) -> (handle: Shader<B>)
        ensures
            handle == (Shader::<B> { slot: old(heap)@.shaders.len() as usize, resource: res }),
            final(heap)@ == (HeapView {
                shaders: created(old(heap)@.shaders, res),
                ..old(heap)@
            }),
            final(self).lists() == (ManagerView {
                shaders: old(self).lists().shaders.push(old(heap)@.shaders.len() as usize),
                ..old(self).lists()
            }),
    ;

    /// Pools a new program, and returns the first handle to it.
    fn make_program(
        &mut self,
        heap: &mut Heap<B>,
        res: B::Program,
        info: shade::ProgramInfo,
    ) -> (handle: Program<B>)
        ensures
            handle == (Program::<B> { slot: old(heap)@.programs.len() as usize, resource: res, info }),
            final(heap)@ == (HeapView {
                programs: created(old(heap)@.programs, shade::Program::<B> { resource: res, info }),
                ..old(heap)@
            }),
            final(self).lists() == (ManagerView {
                programs: old(self).lists().programs.push(old(heap)@.programs.len() as usize),
                ..old(self).lists()
            }),
    ;

    /// Pools a new pipeline state, and returns the first handle to it. The
    /// handle refers to the program.
    fn make_pso(
        &mut self,
        heap: &mut Heap<B>,
        res: B::PipelineStateObject,
        program: &Program<B>,
    ) -> (handle: RawPipelineState<B>)
        ensures
            handle == (RawPipelineState::<B> {
                slot: old(heap)@.psos.len() as usize,
                resource: res,
                program: *program,
            }),
            final(heap)@ == (HeapView {
                psos: created(old(heap)@.psos, res),
                programs: retained(old(heap)@.programs, program.slot as int),
                ..old(heap)@
            }),
            final(self).lists() == (ManagerView {
                psos: old(self).lists().psos.push(old(heap)@.psos.len() as usize),
                ..old(self).lists()
            }),
    ;

    /// Pools a new texture, and returns the first handle to it.
    fn make_texture(
        &mut self,
        heap: &mut Heap<B>,
        res: B::Texture,
        info: texture::Info,
    ) -> (handle: RawTexture<B>)
        ensures
            handle == (RawTexture::<B> { slot: old(heap)@.textures.len() as usize, resource: res, info }),
            final(heap)@ == (HeapView {
                textures: created(old(heap)@.textures, texture::Raw::<B> { resource: res, info }),
                ..old(heap)@
            }),
            final(self).lists() == (ManagerView {
                textures: old(self).lists().textures.push(old(heap)@.textures.len() as usize),
                ..old(self).lists()
            }),
    ;

    /// Pools a new shader resource view of a buffer, and returns the first handle
    /// to it. The handle refers to the buffer.
    fn make_buffer_srv(
        &mut self,
        heap: &mut Heap<B>,
        res: B::ShaderResourceView,
        buf: &RawBuffer<B>,
    ) -> (handle: RawShaderResourceView<B>)
        ensures
            handle == (RawShaderResourceView::<B> {
                slot: old(heap)@.srvs.len() as usize,
                resource: res,
                source: ViewSource::Buffer(*buf),
            }),
            final(heap)@ == (HeapView {
                srvs: created(old(heap)@.srvs, res),
                buffers: retained(old(heap)@.buffers, buf.slot as int),
                ..old(heap)@
            }),
            final(self).lists() == (ManagerView {
                srvs: old(self).lists().srvs.push(old(heap)@.srvs.len() as usize),
                ..old(self).lists()
            }),
    ;

    /// Pools a new shader resource view of a texture, and returns the first handle
    /// to it. The handle refers to the texture.
    fn make_texture_srv(
        &mut self,
        heap: &mut Heap<B>,
        res: B::ShaderResourceView,
        tex: &RawTexture<B>,
    ) -> (handle: RawShaderResourceView<B>)
        ensures
            handle == (RawShaderResourceView::<B> {
                slot: old(heap)@.srvs.len() as usize,
                resource: res,
                source: ViewSource::Texture(*tex),
            }),
            final(heap)@ == (HeapView {
                srvs: created(old(heap)@.srvs, res),
                textures: retained(old(heap)@.textures, tex.slot as int),
                ..old(heap)@
            }),
            final(self).lists() == (ManagerView {
                srvs: old(self).lists().srvs.push(old(heap)@.srvs.len() as usize),
                ..old(self).lists()
            }),
    ;

    /// Pools a new unordered access view of a buffer, and returns the first handle
    /// to it. The handle refers to the buffer.
    fn make_buffer_uav(
        &mut self,
        heap: &mut Heap<B>,
        res: B::UnorderedAccessView,
        buf: &RawBuffer<B>,
    ) -> (handle: RawUnorderedAccessView<B>)
        ensures
            handle == (RawUnorderedAccessView::<B> {
                slot: old(heap)@.uavs.len() as usize,
                resource: res,
                source: ViewSource::Buffer(*buf),
            }),
            final(heap)@ == (HeapView {
                uavs: created(old(heap)@.uavs, res),
                buffers: retained(old(heap)@.buffers, buf.slot as int),
                ..old(heap)@
            }),
            final(self).lists() == (ManagerView {
                uavs: old(self).lists().uavs.push(old(heap)@.uavs.len() as usize),
                ..old(self).lists()
            }),
    ;

    /// Pools a new unordered access view of a texture, and returns the first handle
    /// to it. The handle refers to the texture.
    fn make_texture_uav(
        &mut self,
        heap: &mut Heap<B>,
        res: B::UnorderedAccessView,
        tex: &RawTexture<B>,
    ) -> (handle: RawUnorderedAccessView<B>)
        ensures
            handle == (RawUnorderedAccessView::<B> {
                slot: old(heap)@.uavs.len() as usize,
                resource: res,
                source: ViewSource::Texture(*tex),
            }),
            final(heap)@ == (HeapView {
                uavs: created(old(heap)@.uavs, res),
                textures: retained(old(heap)@.textures, tex.slot as int),
                ..old(heap)@
            }),
            final(self).lists() == (ManagerView {
                uavs: old(self).lists().uavs.push(old(heap)@.uavs.len() as usize),
                ..old(self).lists()
            }),
    ;

    /// Pools a new render target view, and returns the first handle to it. The
    /// handle refers to the texture.
    fn make_rtv(&mut self, heap: &mut Heap<B>, res: B::RenderTargetView,
        tex: &RawTexture<B>,
        dim: texture::Dimensions) -> (handle: RawRenderTargetView<B>)
        ensures
            handle == (RawRenderTargetView::<B> {
                slot: old(heap)@.rtvs.len() as usize,
                resource: res,
                texture: *tex,
                dimensions: dim,
            }),
            final(heap)@ == (HeapView {
                rtvs: created(old(heap)@.rtvs, res),
                textures: retained(old(heap)@.textures, tex.slot as int),
                ..old(heap)@
            }),
            final(self).lists() == (ManagerView {
                rtvs: old(self).lists().rtvs.push(old(heap)@.rtvs.len() as usize),
                ..old(self).lists()
            }),
    ;

    /// Pools a new depth-stencil view, and returns the first handle to it. The
    /// handle refers to the texture.
    fn make_dsv(&mut self, heap: &mut Heap<B>, res: B::DepthStencilView,
        tex: &RawTexture<B>,
        dim: texture::Dimensions) -> (handle: RawDepthStencilView<B>)
        ensures
            handle == (RawDepthStencilView::<B> {
                slot: old(heap)@.dsvs.len() as usize,
                resource: res,
                texture: *tex,
                dimensions: dim,
            }),
            final(heap)@ == (HeapView {
                dsvs: created(old(heap)@.dsvs, res),
                textures: retained(old(heap)@.textures, tex.slot as int),
                ..old(heap)@
            }),
            final(self).lists() == (ManagerView {
                dsvs: old(self).lists().dsvs.push(old(heap)@.dsvs.len() as usize),
                ..old(self).lists()
            }),
    ;

    /// Pools a new sampler, and returns the first handle to it.
    fn make_sampler(
        &mut self,
        heap: &mut Heap<B>,
        res: B::Sampler,
        info: texture::SamplerInfo,
    ) -> (handle: Sampler<B>)
        ensures
            handle == (Sampler::<B> { slot: old(heap)@.samplers.len() as usize, resource: res, info }),
            final(heap)@ == (HeapView {
                samplers: created(old(heap)@.samplers, res),
                ..old(heap)@
            }),
            final(self).lists() == (ManagerView {
                samplers: old(self).lists().samplers.push(old(heap)@.samplers.len() as usize),
                ..old(self).lists()
            }),
    ;

    /// Pools a new fence, and returns the first handle to it.
    fn make_fence(&mut self, heap: &mut Heap<B>, res: B::Fence) -> (handle: Fence<B>)
        ensures
            handle == (Fence::<B> { slot: old(heap)@.fences.len() as usize, marker: PhantomData }),
            final(heap)@ == (HeapView {
                fences: created(old(heap)@.fences, res),
                ..old(heap)@
            }),
            final(self).lists() == (ManagerView {
                fences: old(self).lists().fences.push(old(heap)@.fences.len() as usize),
                ..old(self).lists()
            }),
    ;

    /// Pools a new semaphore, and returns the first handle to it.
    fn make_semaphore(&mut self, heap: &mut Heap<B>, res: B::Semaphore) -> (handle: Semaphore<B>)
        ensures
            handle == (Semaphore::<B> { slot: old(heap)@.semaphores.len() as usize, marker: PhantomData }),
            final(heap)@ == (HeapView {
                semaphores: created(old(heap)@.semaphores, res),
                ..old(heap)@
            }),
            final(self).lists() == (ManagerView {
                semaphores: old(self).lists().semaphores.push(old(heap)@.semaphores.len() as usize),
                ..old(self).lists()
            }),
    ;

    /// Sweeps every kind: hands out, for destruction, each resource whose only
    /// reference is this manager's own, and forgets that reference. What a
    /// handle or another manager still refers to is left alone.
    fn clean_with(&mut self, heap: &mut Heap<B>) -> (out: Swept<B>)
        ensures
            cleaned(old(heap)@, old(self).lists(), final(heap)@, final(self).lists(), out),
    ;
}

impl<B: Backend> Producer<B> for Manager<B> {
    open spec fn lists(&self) -> ManagerView {
        self@
    }

    fn make_buffer(
        &mut self,
        heap: &mut Heap<B>,
        res: B::Buffer,
        info: buffer::Info,
        mapping: Option<B::Mapping>,
    ) -> (handle: RawBuffer<B>) {
        let slot = heap.buffers.create(&mut self.buffers, buffer::Raw::new(res, info, mapping));
        RawBuffer { slot, resource: res, info }
    }

    fn make_shader(&mut self, heap: &mut Heap<B>, res: B::Shader) -> (handle: Shader<B>) {
        let slot = heap.shaders.create(&mut self.shaders, res);
        Shader { slot, resource: res }
    }

    fn make_program(
        &mut self,
        heap: &mut Heap<B>,
        res: B::Program,
        info: shade::ProgramInfo,
    ) -> (handle: Program<B>) {
        let slot = heap.programs.create(&mut self.programs, shade::Program::new(res, info));
        Program { slot, resource: res, info }
    }

    fn make_pso(
        &mut self,
        heap: &mut Heap<B>,
        res: B::PipelineStateObject,
        program: &Program<B>,
    ) -> (handle: RawPipelineState<B>) {
        let slot = heap.psos.create(&mut self.psos, res);
        let _ = heap.programs.retain(program.slot);
        RawPipelineState {
            slot,
            resource: res,
            program: Program { slot: program.slot, resource: program.resource, info: program.info },
        }
    }

    fn make_texture(
        &mut self,
        heap: &mut Heap<B>,
        res: B::Texture,
        info: texture::Info,
    ) -> (handle: RawTexture<B>) {
        let slot = heap.textures.create(&mut self.textures, texture::Raw::new(res, info));
        RawTexture { slot, resource: res, info }
    }

    fn make_buffer_srv(
        &mut self,
        heap: &mut Heap<B>,
        res: B::ShaderResourceView,
        buf: &RawBuffer<B>,
    ) -> (handle: RawShaderResourceView<B>) {
        let slot = heap.srvs.create(&mut self.srvs, res);
        let _ = heap.buffers.retain(buf.slot);
        RawShaderResourceView {
            slot,
            resource: res,
            source: ViewSource::Buffer(
                RawBuffer { slot: buf.slot, resource: buf.resource, info: buf.info },
            ),
        }
    }

    fn make_texture_srv(
        &mut self,
        heap: &mut Heap<B>,
        res: B::ShaderResourceView,
        tex: &RawTexture<B>,
    ) -> (handle: RawShaderResourceView<B>) {
        let slot = heap.srvs.create(&mut self.srvs, res);
        let _ = heap.textures.retain(tex.slot);
        RawShaderResourceView {
            slot,
            resource: res,
            source: ViewSource::Texture(
                RawTexture { slot: tex.slot, resource: tex.resource, info: tex.info },
            ),
        }
    }

    fn make_buffer_uav(
        &mut self,
        heap: &mut Heap<B>,
        res: B::UnorderedAccessView,
        buf: &RawBuffer<B>,
    ) -> (handle: RawUnorderedAccessView<B>) {
        let slot = heap.uavs.create(&mut self.uavs, res);
        let _ = heap.buffers.retain(buf.slot);
        RawUnorderedAccessView {
            slot,
            resource: res,
            source: ViewSource::Buffer(
                RawBuffer { slot: buf.slot, resource: buf.resource, info: buf.info },
            ),
        }
    }

    fn make_texture_uav(
        &mut self,
        heap: &mut Heap<B>,
        res: B::UnorderedAccessView,
        tex: &RawTexture<B>,
    ) -> (handle: RawUnorderedAccessView<B>) {
        let slot = heap.uavs.create(&mut self.uavs, res);
        let _ = heap.textures.retain(tex.slot);
        RawUnorderedAccessView {
            slot,
            resource: res,
            source: ViewSource::Texture(
                RawTexture { slot: tex.slot, resource: tex.resource, info: tex.info },
            ),
        }
    }

    fn make_rtv(&mut self, heap: &mut Heap<B>, res: B::RenderTargetView,
        tex: &RawTexture<B>,
        dim: texture::Dimensions) -> (handle: RawRenderTargetView<B>) {
        let slot = heap.rtvs.create(&mut self.rtvs, res);
        let _ = heap.textures.retain(tex.slot);
        RawRenderTargetView {
            slot,
            resource: res,
            texture: RawTexture { slot: tex.slot, resource: tex.resource, info: tex.info },
            dimensions: dim,
        }
    }

    fn make_dsv(&mut self, heap: &mut Heap<B>, res: B::DepthStencilView,
        tex: &RawTexture<B>,
        dim: texture::Dimensions) -> (handle: RawDepthStencilView<B>) {
        let slot = heap.dsvs.create(&mut self.dsvs, res);
        let _ = heap.textures.retain(tex.slot);
        RawDepthStencilView {
            slot,
            resource: res,
            texture: RawTexture { slot: tex.slot, resource: tex.resource, info: tex.info },
            dimensions: dim,
        }
    }

    fn make_sampler(
        &mut self,
        heap: &mut Heap<B>,
        res: B::Sampler,
        info: texture::SamplerInfo,
    ) -> (handle: Sampler<B>) {
        let slot = heap.samplers.create(&mut self.samplers, res);
        Sampler { slot, resource: res, info }
    }

    fn make_fence(&mut self, heap: &mut Heap<B>, res: B::Fence) -> (handle: Fence<B>) {
        let slot = heap.fences.create(&mut self.fences, res);
        Fence { slot, marker: PhantomData }
    }

    fn make_semaphore(&mut self, heap: &mut Heap<B>, res: B::Semaphore) -> (handle: Semaphore<B>) {
        let slot = heap.semaphores.create(&mut self.semaphores, res);
        Semaphore { slot, marker: PhantomData }
    }

    fn clean_with(&mut self, heap: &mut Heap<B>) -> (out: Swept<B>) {
        let buffers = heap.buffers.sweep(&mut self.buffers);
        let shaders = heap.shaders.sweep(&mut self.shaders);
        let programs = heap.programs.sweep(&mut self.programs);
        let psos = heap.psos.sweep(&mut self.psos);
        let textures = heap.textures.sweep(&mut self.textures);
        let srvs = heap.srvs.sweep(&mut self.srvs);
        let uavs = heap.uavs.sweep(&mut self.uavs);
        let rtvs = heap.rtvs.sweep(&mut self.rtvs);
        let dsvs = heap.dsvs.sweep(&mut self.dsvs);
        let samplers = heap.samplers.sweep(&mut self.samplers);
        let fences = heap.fences.sweep(&mut self.fences);
        let semaphores = heap.semaphores.sweep(&mut self.semaphores);
        Swept {
            buffers,
            shaders,
            programs,
            psos,
            textures,
            srvs,
            uavs,
            rtvs,
            dsvs,
            samplers,
            fences,
            semaphores,
        }
    }
}

/// Two managers refer to each slot equally often.
pub open spec fn same_references(a: ManagerView, b: ManagerView) -> bool {
    &&& forall|id: usize| occurrences(a.buffers, id) == occurrences(b.buffers, id)
    &&& forall|id: usize| occurrences(a.shaders, id) == occurrences(b.shaders, id)
    &&& forall|id: usize| occurrences(a.programs, id) == occurrences(b.programs, id)
    &&& forall|id: usize| occurrences(a.psos, id) == occurrences(b.psos, id)
    &&& forall|id: usize| occurrences(a.textures, id) == occurrences(b.textures, id)
    &&& forall|id: usize| occurrences(a.srvs, id) == occurrences(b.srvs, id)
    &&& forall|id: usize| occurrences(a.uavs, id) == occurrences(b.uavs, id)
    &&& forall|id: usize| occurrences(a.rtvs, id) == occurrences(b.rtvs, id)
    &&& forall|id: usize| occurrences(a.dsvs, id) == occurrences(b.dsvs, id)
    &&& forall|id: usize| occurrences(a.samplers, id) == occurrences(b.samplers, id)
    &&& forall|id: usize| occurrences(a.fences, id) == occurrences(b.fences, id)
    &&& forall|id: usize| occurrences(a.semaphores, id) == occurrences(b.semaphores, id)
}

/// A sweep that follows a sweep, with nothing done to the heap or the
/// manager in between, hands out nothing for destruction and leaves the heap
/// and the manager's references as it found them.
pub proof fn lemma_second_clean_is_idle<B: Backend>(
    h0: HeapView<B>,
    m0: ManagerView,
    h1: HeapView<B>,
    m1: ManagerView,
    first: Swept<B>,
    h2: HeapView<B>,
    m2: ManagerView,
    second: Swept<B>,
)
    requires
        cleaned(h0, m0, h1, m1, first),
        cleaned(h1, m1, h2, m2, second),
    ensures
        second.total() == 0,
        h2 == h1,
        same_references(m1, m2),
{
    lemma_second_sweep_is_idle(
        h0.buffers,
        m0.buffers,
        h1.buffers,
        m1.buffers,
        first.buffers@,
        h2.buffers,
        m2.buffers,
        second.buffers@,
    );
    lemma_second_sweep_is_idle(
        h0.shaders,
        m0.shaders,
        h1.shaders,
        m1.shaders,
        first.shaders@,
        h2.shaders,
        m2.shaders,
        second.shaders@,
    );
    lemma_second_sweep_is_idle(
        h0.programs,
        m0.programs,
        h1.programs,
        m1.programs,
        first.programs@,
        h2.programs,
        m2.programs,
        second.programs@,
    );
    lemma_second_sweep_is_idle(
        h0.psos,
        m0.psos,
        h1.psos,
        m1.psos,
        first.psos@,
        h2.psos,
        m2.psos,
        second.psos@,
    );
    lemma_second_sweep_is_idle(
        h0.textures,
        m0.textures,
        h1.textures,
        m1.textures,
        first.textures@,
        h2.textures,
        m2.textures,
        second.textures@,
    );
    lemma_second_sweep_is_idle(
        h0.srvs,
        m0.srvs,
        h1.srvs,
        m1.srvs,
        first.srvs@,
        h2.srvs,
        m2.srvs,
        second.srvs@,
    );
    lemma_second_sweep_is_idle(
        h0.uavs,
        m0.uavs,
        h1.uavs,
        m1.uavs,
        first.uavs@,
        h2.uavs,
        m2.uavs,
        second.uavs@,
    );
    lemma_second_sweep_is_idle(
        h0.rtvs,
        m0.rtvs,
        h1.rtvs,
        m1.rtvs,
        first.rtvs@,
        h2.rtvs,
        m2.rtvs,
        second.rtvs@,
    );
    lemma_second_sweep_is_idle(
        h0.dsvs,
        m0.dsvs,
        h1.dsvs,
        m1.dsvs,
        first.dsvs@,
        h2.dsvs,
        m2.dsvs,
        second.dsvs@,
    );
    lemma_second_sweep_is_idle(
        h0.samplers,
        m0.samplers,
        h1.samplers,
        m1.samplers,
        first.samplers@,
        h2.samplers,
        m2.samplers,
        second.samplers@,
    );
    lemma_second_sweep_is_idle(
        h0.fences,
        m0.fences,
        h1.fences,
        m1.fences,
        first.fences@,
        h2.fences,
        m2.fences,
        second.fences@,
    );
    lemma_second_sweep_is_idle(
        h0.semaphores,
        m0.semaphores,
        h1.semaphores,
        m1.semaphores,
        first.semaphores@,
        h2.semaphores,
        m2.semaphores,
        second.semaphores@,
    );
}

} // verus!

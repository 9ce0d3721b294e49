//! The native objects of the OpenGL backend, as plain values.

use vstd::prelude::*;
use crate::texture::SamplerInfo;

verus! {

/// The name of a buffer object.
pub type Buffer = u32;

/// The name of a shader object.
pub type Shader = u32;

/// The name of a program object.
pub type Program = u32;

/// The name of a framebuffer object.
pub type FrameBuffer = u32;

/// The name of a renderbuffer object.
pub type Surface = u32;

/// The name of a texture object.
pub type Texture = u32;

/// The name of a sampler object.
pub type Sampler = u32;

/// A mip level of a texture.
pub type Level = u8;

/// A layer of an array texture.
pub type Layer = u16;

/// The binding point of buffer textures.
pub const TEXTURE_BUFFER: u32 = 0x8C2A;

/// A sync object, by its address; zero stands for "none placed yet".
#[derive(Clone, Copy, Debug, PartialEq, Eq, Structural)]
pub struct Fence(pub usize);

impl Fence {
    /// Wraps a sync object.
    pub fn new(sync: usize) -> (fence: Fence)
        ensures
            fence.0 == sync,
    {
        Fence(sync)
    }
}

/// A texture as a shader sees it.
#[derive(Clone, Copy, Debug, PartialEq, Eq, Hash, Structural)]
pub struct ResourceView {
    pub object: Texture,
    pub bind: u32,
    pub owned: bool,
}

impl ResourceView {
    /// A view of the texture `t`, which stays with its owner. `bind` is the
    /// binding point of the texture's kind.
    pub fn new_texture(t: Texture, bind: u32) -> (view: ResourceView)
        ensures
            view == (ResourceView { object: t, bind, owned: false }),
    {
        ResourceView { object: t, bind, owned: false }
    }

    /// A view of a buffer through the buffer texture `b`, which the view owns.
    pub fn new_buffer(b: Texture) -> (view: ResourceView)
        ensures
            view == (ResourceView { object: b, bind: TEXTURE_BUFFER, owned: true }),
    {
        ResourceView { object: b, bind: TEXTURE_BUFFER, owned: true }
    }
}

/// A graphics pipeline, which in OpenGL is a program.
#[derive(Clone, Copy, Debug, PartialEq, Eq, Structural)]
pub struct GraphicsPipeline {
    pub program: Program,
}

/// A compute pipeline, which in OpenGL is a program.
#[derive(Clone, Copy, Debug, PartialEq, Eq, Structural)]
pub struct ComputePipeline {
    pub program: Program,
}

/// Image storage: a renderbuffer or a texture.
#[derive(Clone, Copy, Debug, PartialEq, Eq, Hash, Structural)]
pub enum Image {
    Surface(Surface),
    Texture(Texture),
}

/// A sampler object, or the set-up that stands for one on versions without
/// sampler objects.
#[derive(Clone, Copy, Debug, PartialEq, Eq, Hash, Structural)]
pub enum FatSampler {
    Sampler(Sampler),
    Info(SamplerInfo),
}

/// What a render target or depth-stencil view is attached from.
#[derive(Clone, Copy, Debug, PartialEq, Eq, Hash, Structural)]
pub enum TargetView {
    Surface(Surface),
    Texture(Texture, Level),
    TextureLayer(Texture, Level, Layer),
}

#[derive(Clone, Copy, Debug, PartialEq, Eq, Hash, Structural)]
pub struct DescriptorSetLayout;

#[derive(Clone, Copy, Debug, PartialEq, Eq, Hash, Structural)]
pub struct DescriptorSet;

#[derive(Debug)]
pub struct DescriptorPool {}

#[derive(Debug)]
pub struct Heap;

#[derive(Debug)]
pub struct ShaderLib;

#[derive(Debug)]
pub struct RenderPass;

#[derive(Debug)]
pub struct ConstantBufferView;

#[derive(Debug)]
pub struct ShaderResourceView;

#[derive(Clone, Copy, Debug, PartialEq, Eq, Hash, Structural)]
pub struct UnorderedAccessView;

#[derive(Debug)]
pub struct RenderTargetView {
    pub view: TargetView,
}

#[derive(Debug)]
pub struct DepthStencilView;

#[derive(Debug)]
pub struct PipelineLayout;

/// OpenGL needs no synchronization between queues.
#[derive(Clone, Copy, Debug, PartialEq, Eq, Hash, Structural)]
pub struct Semaphore;

} // verus!

//! The run-time core of a graphics abstraction layer: resources that live as
//! long as anything refers to them, and a command queue that replays portable
//! commands against a stateful driver.

use vstd::prelude::*;

pub mod arena;
pub mod buffer;
pub mod command;
pub mod format;
pub mod gl;
pub mod handle;
pub mod lifetime;
pub mod mapping;
pub mod memory;
pub mod pool;
pub mod shade;
pub mod texture;

verus! {

/// The native object types of one graphics API.
pub trait Backend: Sized {
    type Buffer: Copy;
    type Shader: Copy;
    type Program: Copy;
    type PipelineStateObject: Copy;
    type Texture: Copy;
    type ShaderResourceView: Copy;
    type UnorderedAccessView: Copy;
    type RenderTargetView: Copy;
    type DepthStencilView: Copy;
    type Sampler: Copy;
    type Fence;
    type Semaphore;
    type Mapping;
}

} // verus!

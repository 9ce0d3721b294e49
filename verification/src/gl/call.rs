//! The native calls that the queue asks for.
//!
//! The queue decides which calls are made, with which arguments and in which
//! order; whoever owns the OpenGL context makes them. A call that takes an
//! array says where the array is: in the data block recorded with the
//! command, or, for a reset, an array of neutral entries.

use vstd::prelude::*;

verus! {

pub const NO_ERROR: u32 = 0;

pub const INVALID_ENUM: u32 = 0x0500;

pub const INVALID_VALUE: u32 = 0x0501;

pub const INVALID_OPERATION: u32 = 0x0502;

pub const OUT_OF_MEMORY: u32 = 0x0505;

pub const INVALID_FRAMEBUFFER_OPERATION: u32 = 0x0506;

pub const UNPACK_ALIGNMENT: u32 = 0x0CF5;

pub const PROGRAM_POINT_SIZE: u32 = 0x8642;

pub const ARRAY_BUFFER: u32 = 0x8892;

pub const ELEMENT_ARRAY_BUFFER: u32 = 0x8893;

pub const PIXEL_PACK_BUFFER: u32 = 0x88EB;

pub const UNIFORM_BUFFER: u32 = 0x8A11;

pub const RENDERBUFFER: u32 = 0x8D41;

pub const FRAMEBUFFER_SRGB: u32 = 0x8DB9;

pub const DRAW_INDIRECT_BUFFER: u32 = 0x8F3F;

pub const SYNC_GPU_COMMANDS_COMPLETE: u32 = 0x9117;

pub const CLIENT_MAPPED_BUFFER_BARRIER_BIT: u32 = 0x4000;

pub const SYNC_FLUSH_COMMANDS_BIT: u32 = 0x1;

/// A range of bytes in a data block.
#[derive(Clone, Copy, Debug, PartialEq, Eq, Structural)]
pub struct DataPointer {
    pub offset: u32,
    pub size: u32,
}

/// Where the array of an array call is.
#[derive(Clone, Copy, Debug, PartialEq, Eq, Structural)]
pub enum Source {
    /// In the data block recorded with the command.
    Data(DataPointer),
    /// Nowhere: each entry is the neutral one.
    Neutral,
}

/// One call into the driver.
#[allow(inconsistent_fields)]
#[derive(Clone, Copy, Debug, PartialEq, Eq, Structural)]
pub enum Call {
    Enable { cap: u32 },
    PixelStorei { name: u32, value: i32 },
    BindVertexArray { array: u32 },
    BindBuffer { target: u32, buffer: u32 },
    /// Sets the one viewport.
    Viewport { x: i32, y: i32, width: i32, height: i32 },
    /// Sets the one viewport to the rectangle at `rect` in the data block.
    ViewportAt { rect: DataPointer },
    /// Sets the one depth range to the neutral range, from zero to one.
    DepthRangeNeutral,
    /// Sets the one depth range to the range at `range` in the data block.
    DepthRangeAt { range: DataPointer },
    ViewportArray { first: u32, count: i32, rects: Source },
    DepthRangeArray { first: u32, count: i32, ranges: Source },
    /// Sets the one scissor rectangle.
    Scissor { x: i32, y: i32, width: i32, height: i32 },
    /// Sets the one scissor rectangle to the one at `rect` in the data block.
    ScissorAt { rect: DataPointer },
    ScissorArray { first: u32, count: i32, rects: Source },
    DrawArrays { mode: u32, first: i32, count: i32 },
    DrawArraysInstanced { mode: u32, first: i32, count: i32, instances: i32 },
    DrawArraysInstancedBaseInstance {
        mode: u32,
        first: i32,
        count: i32,
        instances: i32,
        base_instance: u32,
    },
    DrawElements { mode: u32, count: i32, index_type: u32, offset: usize },
    DrawElementsBaseVertex { mode: u32, count: i32, index_type: u32, offset: usize, base_vertex: i32 },
    DrawElementsInstanced { mode: u32, count: i32, index_type: u32, offset: usize, instances: i32 },
    DrawElementsInstancedBaseVertex {
        mode: u32,
        count: i32,
        index_type: u32,
        offset: usize,
        instances: i32,
        base_vertex: i32,
    },
    DrawElementsInstancedBaseVertexBaseInstance {
        mode: u32,
        count: i32,
        index_type: u32,
        offset: usize,
        instances: i32,
        base_vertex: i32,
        base_instance: u32,
    },
    DispatchCompute { x: u32, y: u32, z: u32 },
    DispatchComputeIndirect { offset: isize },
    FramebufferRenderbuffer { point: u32, attachment: u32, target: u32, surface: u32 },
    FramebufferTexture { point: u32, attachment: u32, texture: u32, level: i32 },
    FramebufferTextureLayer { point: u32, attachment: u32, texture: u32, level: i32, layer: i32 },
    FlushMappedBufferRange { target: u32, offset: isize, length: isize },
    UnmapBuffer { target: u32 },
    MemoryBarrier { barriers: u32 },
    /// Places a sync object; the fence in slot `fence` is to receive it.
    FenceSync { condition: u32, flags: u32, fence: usize },
    /// Waits, for at most `timeout` nanoseconds, for the sync object of the
    /// fence in slot `fence`.
    ClientWaitSync { fence: usize, flags: u32, timeout: u64 },
    DeleteBuffers { buffer: u32 },
    DeleteRenderbuffers { surface: u32 },
    DeleteTextures { texture: u32 },
    DeleteSamplers { sampler: u32 },
    DeleteSync { sync: usize },
    /// Reads the error flag, which is then to be decoded and checked.
    GetError,
}

impl Call {
    /// Whether this call draws.
    pub open spec fn is_draw(self) -> bool {
        self is DrawArrays || self is DrawArraysInstanced || self is DrawArraysInstancedBaseInstance
            || self is DrawElements || self is DrawElementsBaseVertex
            || self is DrawElementsInstanced || self is DrawElementsInstancedBaseVertex
            || self is DrawElementsInstancedBaseVertexBaseInstance
    }
}

} // verus!

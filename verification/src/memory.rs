//! How memory is bound and used.

use vstd::prelude::*;

verus! {

/// The ways a resource may be bound to the pipeline, one bit each.
pub type Bind = u8;

/// Can be rendered into.
pub const RENDER_TARGET: Bind = 0x1;

/// Can serve as a depth or stencil buffer.
pub const DEPTH_STENCIL: Bind = 0x2;

/// Can be read by a shader.
pub const SHADER_RESOURCE: Bind = 0x4;

/// Can be written by a shader.
pub const UNORDERED_ACCESS: Bind = 0x8;

/// Can be copied from.
pub const TRANSFER_SRC: Bind = 0x10;

/// Can be copied to.
pub const TRANSFER_DST: Bind = 0x20;

/// How often, and from which side, a resource's memory is written.
#[derive(Clone, Copy, Debug, PartialEq, Eq, Hash, Structural)]
pub enum Usage {
    /// Written once, read by the GPU.
    Data,
    /// Written by the CPU now and then.
    Dynamic,
    /// Written by the CPU through a mapping, read by the GPU.
    Upload,
    /// Written by the GPU, read by the CPU through a mapping.
    Download,
}

/// A handle with a type attached to what it points at.
pub trait Typed: Sized {
    /// The handle without the type.
    type Raw;

    /// The raw handle underneath.
    spec fn untyped(&self) -> Self::Raw;

    /// Attaches the type to a raw handle.
    fn new(raw: Self::Raw) -> (typed: Self)
        ensures
            typed.untyped() == raw,
    ;

    /// The raw handle underneath.
    fn raw(&self) -> (raw: &Self::Raw)
        ensures
            *raw == self.untyped(),
    ;
}

} // verus!

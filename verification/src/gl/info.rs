//! What an OpenGL implementation was found to offer.

use vstd::prelude::*;

verus! {

/// The entry points for drawing that the implementation offers.
#[derive(Clone, Copy, Debug, PartialEq, Eq, Structural)]
pub struct Features {
    /// Instanced drawing.
    pub draw_instanced: bool,
    /// Instanced drawing that starts at a given instance.
    pub draw_instanced_base: bool,
    /// Indexed drawing with an offset added to each index.
    pub draw_indexed_base: bool,
    /// Instanced indexed drawing.
    pub draw_indexed_instanced: bool,
    /// Instanced indexed drawing with an offset added to each index.
    pub draw_indexed_instanced_base_vertex: bool,
    /// Instanced indexed drawing with an index offset and a first instance.
    pub draw_indexed_instanced_base: bool,
    /// Framebuffers that convert to sRGB on writing.
    pub srgb_color: bool,
}

/// The sizes that the implementation allows.
#[derive(Clone, Copy, Debug, PartialEq, Eq, Structural)]
pub struct Limits {
    /// The largest number of viewports, and of scissor rectangles.
    pub max_viewports: usize,
}

/// What the backend itself needs to know of the implementation.
#[derive(Clone, Copy, Debug, PartialEq, Eq, Structural)]
pub struct PrivateCaps {
    /// Vertex array objects.
    pub array_buffer_supported: bool,
    /// Buffers with immutable storage, which can stay mapped.
    pub buffer_storage_supported: bool,
    /// Sync objects.
    pub sync_supported: bool,
}

/// The version an implementation reports.
#[derive(Clone, Copy, Debug, PartialEq, Eq, Structural)]
pub struct Version {
    pub is_embedded: bool,
    pub major: u32,
    pub minor: u32,
}

impl Version {
    /// Whether this version is of the given family and at least
    /// `major.minor`.
    pub open spec fn reaches(self, embedded: bool, major: u32, minor: u32) -> bool {
        self.is_embedded == embedded && (self.major > major || (self.major == major && self.minor
            >= minor))
    }

    /// Whether this version is of the given family and at least
    /// `major.minor`.
    pub fn is_at_least(&self, embedded: bool, major: u32, minor: u32) -> (r: bool)
        ensures
            r == self.reaches(embedded, major, minor),
    {
        self.is_embedded == embedded && (self.major > major || (self.major == major && self.minor
            >= minor))
    }

    /// Compute shaders came with OpenGL 4.3 and OpenGL ES 3.1.
    pub open spec fn has_compute(self) -> bool {
        self.reaches(false, 4, 3) || self.reaches(true, 3, 1)
    }

    /// Whether compute shaders can be dispatched.
    pub fn supports_compute(&self) -> (r: bool)
        ensures
            r == self.has_compute(),
    {
        self.is_at_least(false, 4, 3) || self.is_at_least(true, 3, 1)
    }
}

} // verus!

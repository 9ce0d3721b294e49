//! Textures as the core sees them: a native object and its description.

use vstd::prelude::*;
use crate::format::SurfaceType;
use crate::memory::{Bind, Usage};
use crate::Backend;

verus! {

/// A length in texels.
pub type Size = u16;

/// The number of layers of an array texture.
pub type Layer = u16;

/// The number of mip levels.
pub type Level = u8;

/// The number of samples per texel.
pub type NumSamples = u8;

/// The number of fragments per texel.
pub type NumFragments = u8;

/// How a surface is anti-aliased.
#[derive(Clone, Copy, Debug, PartialEq, Eq, Hash, Structural)]
pub enum AaMode {
    Single,
    Multi(NumSamples),
    Coverage(NumSamples, NumFragments),
}

/// Width, height, depth and anti-aliasing of a surface.
pub type Dimensions = (Size, Size, Size, AaMode);

/// The shape of a texture.
#[derive(Clone, Copy, Debug, PartialEq, Eq, Hash, Structural)]
pub enum Kind {
    D1(Size),
    D1Array(Size, Layer),
    D2(Size, Size, AaMode),
    D2Array(Size, Size, Layer, AaMode),
    D3(Size, Size, Size),
    Cube(Size),
    CubeArray(Size, Layer),
}

/// What a texture was made as.
#[derive(Clone, Copy, Debug, PartialEq, Eq, Hash, Structural)]
pub struct Info {
    pub kind: Kind,
    pub levels: Level,
    pub format: SurfaceType,
    pub bind: Bind,
    pub usage: Usage,
}

/// How texels between sample points are found.
#[derive(Clone, Copy, Debug, PartialEq, Eq, Hash, Structural)]
pub enum FilterMethod {
    Scale,
    Mipmap,
    Bilinear,
    Trilinear,
    Anisotropic(u8),
}

/// What lies beyond the edge of a texture.
#[derive(Clone, Copy, Debug, PartialEq, Eq, Hash, Structural)]
pub enum WrapMode {
    Tile,
    Mirror,
    Clamp,
    Border,
}

/// What a sampler was made as.
#[derive(Clone, Copy, Debug, PartialEq, Eq, Hash, Structural)]
pub struct SamplerInfo {
    pub filter: FilterMethod,
    pub wrap_u: WrapMode,
    pub wrap_v: WrapMode,
    pub wrap_w: WrapMode,
}

/// A texture in its pool: the native object and its description.
pub struct Raw<B: Backend> {
    pub resource: B::Texture,
    pub info: Info,
}

impl<B: Backend> Raw<B> {
    /// Puts a native texture and its description together.
    pub fn new(resource: B::Texture, info: Info) -> (raw: Raw<B>)
        ensures
            raw.resource == resource,
            raw.info == info,
    {
        Raw { resource, info }
    }

    /// The native texture.
    pub fn resource(&self) -> (r: &B::Texture)
        ensures
            *r == self.resource,
    {
        &self.resource
    }

    /// The description.
    pub fn get_info(&self) -> (r: &Info)
        ensures
            *r == self.info,
    {
        &self.info
    }
}

} // verus!

//! Surface formats.

use vstd::prelude::*;

verus! {

/// How the bits of one texel are laid out.
#[allow(non_camel_case_types)]
#[derive(Clone, Copy, Debug, PartialEq, Eq, Hash, Structural)]
pub enum SurfaceType {
    R4_G4,
    R4_G4_B4_A4,
    R5_G5_B5_A1,
    R5_G6_B5,
    R8,
    R8_G8,
    R8_G8_B8_A8,
    R10_G10_B10_A2,
    R11_G11_B10,
    R16,
    R16_G16,
    R16_G16_B16,
    R16_G16_B16_A16,
    R32,
    R32_G32,
    R32_G32_B32,
    R32_G32_B32_A32,
    B8_G8_R8_A8,
    D16,
    D24,
    D24_S8,
    D32,
}

} // verus!

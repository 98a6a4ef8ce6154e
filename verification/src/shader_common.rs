//! Constants and layouts that the generated HLSL shares with the renderer.

use vstd::prelude::*;

verus! {

/// Specialization constant bit for R11G11B10 normal decoding.
pub const SPEC_CONSTANT_R11G11B10_NORMAL: u32 = 0x1;
/// Specialization constant bit for alpha testing.
pub const SPEC_CONSTANT_ALPHA_TEST: u32 = 0x2;
/// Specialization constant bit for bicubic GI filtering.
pub const SPEC_CONSTANT_BICUBIC_GI_FILTER: u32 = 0x4;
/// Specialization constant bit for alpha-to-coverage.
pub const SPEC_CONSTANT_ALPHA_TO_COVERAGE: u32 = 0x8;
/// Specialization constant bit for reverse-Z depth.
pub const SPEC_CONSTANT_REVERSE_Z: u32 = 0x10;

/// Addresses of the constant buffers that a draw pushes to the shaders.
#[derive(Debug, Clone, Copy, PartialEq, Eq, Default, Structural)]
pub struct PushConstants {
    pub vertex_shader_constants: u64,
    pub pixel_shader_constants: u64,
    pub shared_constants: u64,
}

} // verus!

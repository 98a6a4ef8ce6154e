//! The shader compiler front end that the recompiler hands its HLSL to.
//!
//! This build has no DXC back end: every compilation is refused with the same
//! error, and callers fall back to having no DXIL and no SPIR-V.

use vstd::prelude::*;

verus! {

/// The compiler front end.
#[derive(Debug, Default)]
pub struct DxcCompiler;

/// A compilation that did not produce code, with the reason.
#[derive(Debug, Clone)]
pub struct DxcError {
    pub message: String,
}

/// The reason every compilation gives.
pub open spec fn unavailable_message() -> Seq<char> {
    "DXC compilation is not yet implemented in Rust"@
}

impl DxcCompiler {
    /// A compiler front end.
    pub fn new() -> (r: Self) {
        DxcCompiler
    }

    /// Compiles `shader_source`; always refuses, with `unavailable_message()`.
    pub fn compile(
        &self,
        shader_source: &str,
        compile_pixel_shader: bool,
        compile_library: bool,
        compile_spirv: bool,
    ) -> (r: Result<Vec<u8>, DxcError>)
        ensures
            r matches Err(e) && e.message@ == unavailable_message(),
    {
        Err(DxcError { message: String::from_str("DXC compilation is not yet implemented in Rust") })
    }
}

} // verus!

//! The shader records that a container describes.

use vstd::prelude::*;

verus! {

/// Where a block of `count` float4 constants with default values starts.
#[derive(Debug, Clone, Copy, PartialEq, Eq, Structural)]
pub struct Float4Definition {
    pub register_index: u16,
    pub count: u16,
    pub physical_offset: u32,
}

/// The header of a block of int4 constants with default values.
#[derive(Debug, Clone, Copy, PartialEq, Eq, Structural)]
pub struct Int4DefinitionHeader {
    pub register_index: u16,
    pub count: u16,
}

/// The table of constant definitions.
#[derive(Debug, Clone, Copy, PartialEq, Eq, Structural)]
pub struct DefinitionTable {
    pub field_0: u32,
    pub field_4: u32,
    pub field_8: u32,
    pub field_c: u32,
    pub size: u32,
}

/// The header that vertex and pixel shaders share.
#[derive(Debug, Clone, Copy, PartialEq, Eq, Structural)]
pub struct Shader {
    pub physical_offset: u32,
    pub size: u32,
    pub field_8: u32,
    pub field_c: u32,
    pub field_10: u32,
    pub interpolator_info: u32,
}

/// The meaning of a vertex element or interpolator.
#[derive(Debug, Clone, Copy, PartialEq, Eq, Structural)]
pub enum DeclUsage {
    Position,
    BlendWeight,
    BlendIndices,
    Normal,
    PointSize,
    TexCoord,
    Tangent,
    Binormal,
    TessFactor,
    PositionT,
    Color,
    Fog,
    Depth,
    Sample,
}

/// One input of a vertex shader.
#[derive(Debug, Clone, Copy, PartialEq, Eq, Structural)]
pub struct VertexElement {
    pub address: u16,
    pub usage: DeclUsage,
    pub usage_index: u8,
}

/// One value passed from the vertex shader to the pixel shader.
#[derive(Debug, Clone, Copy, PartialEq, Eq, Structural)]
pub struct Interpolator {
    pub usage_index: u8,
    pub usage: DeclUsage,
    pub reg: u8,
}

/// The header of a vertex shader.
#[derive(Debug, Clone, Copy, PartialEq, Eq, Structural)]
pub struct VertexShader {
    pub base: Shader,
    pub field_18: u32,
    pub vertex_element_count: u32,
    pub field_20: u32,
    pub vertex_elements_and_interpolators: u32,
}

/// Bit of `PixelShader::outputs`: the shader writes colour target 0.
pub const PIXEL_SHADER_OUTPUT_COLOR0: u32 = 0x1;
/// Bit of `PixelShader::outputs`: the shader writes colour target 1.
pub const PIXEL_SHADER_OUTPUT_COLOR1: u32 = 0x2;
/// Bit of `PixelShader::outputs`: the shader writes colour target 2.
pub const PIXEL_SHADER_OUTPUT_COLOR2: u32 = 0x4;
/// Bit of `PixelShader::outputs`: the shader writes colour target 3.
pub const PIXEL_SHADER_OUTPUT_COLOR3: u32 = 0x8;
/// Bit of `PixelShader::outputs`: the shader writes depth.
pub const PIXEL_SHADER_OUTPUT_DEPTH: u32 = 0x10;

/// The header of a pixel shader.
#[derive(Debug, Clone, Copy, PartialEq, Eq, Structural)]
pub struct PixelShader {
    pub base: Shader,
    pub field_18: u32,
    pub outputs: u32,
    pub interpolators: u32,
}

/// The header of a shader container.
#[derive(Debug, Clone, Copy, PartialEq, Eq, Structural)]
pub struct ShaderContainer {
    pub flags: u32,
    pub virtual_size: u32,
    pub physical_size: u32,
    pub field_c: u32,
    pub constant_table_offset: u32,
    pub definition_table_offset: u32,
    pub shader_offset: u32,
    pub field_1c: u32,
    pub field_20: u32,
}

} // verus!

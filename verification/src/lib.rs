//! Tools for reading Xbox 360 (Xenos) shader containers and turning them into
//! HLSL, with every decision the reader makes stated and proved.

pub mod constant_table;
pub mod dx_compiler;
pub mod dxc_compiler;
pub mod recompiler;
pub mod shader;
pub mod shader_common;
pub mod shader_compiler;
pub mod shader_parsing;

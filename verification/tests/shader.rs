use xenos_recomp::shader::{
    DeclUsage, DefinitionTable, Float4Definition, Int4DefinitionHeader, Interpolator,
    PixelShader, Shader, ShaderContainer, VertexElement, VertexShader, PIXEL_SHADER_OUTPUT_COLOR0,
    PIXEL_SHADER_OUTPUT_COLOR1, PIXEL_SHADER_OUTPUT_COLOR2, PIXEL_SHADER_OUTPUT_COLOR3,
    PIXEL_SHADER_OUTPUT_DEPTH,
};
use xenos_recomp::shader_common::{
    PushConstants, SPEC_CONSTANT_ALPHA_TEST, SPEC_CONSTANT_ALPHA_TO_COVERAGE,
    SPEC_CONSTANT_BICUBIC_GI_FILTER, SPEC_CONSTANT_R11G11B10_NORMAL, SPEC_CONSTANT_REVERSE_Z,
};

#[test]
fn output_bits_are_distinct_single_bits() {
    let bits = [
        PIXEL_SHADER_OUTPUT_COLOR0,
        PIXEL_SHADER_OUTPUT_COLOR1,
        PIXEL_SHADER_OUTPUT_COLOR2,
        PIXEL_SHADER_OUTPUT_COLOR3,
        PIXEL_SHADER_OUTPUT_DEPTH,
    ];
    for (i, b) in bits.iter().enumerate() {
        assert_eq!(*b, 1u32 << i);
    }
}

#[test]
fn spec_constant_bits_are_distinct_single_bits() {
    let bits = [
        SPEC_CONSTANT_R11G11B10_NORMAL,
        SPEC_CONSTANT_ALPHA_TEST,
        SPEC_CONSTANT_BICUBIC_GI_FILTER,
        SPEC_CONSTANT_ALPHA_TO_COVERAGE,
        SPEC_CONSTANT_REVERSE_Z,
    ];
    for (i, b) in bits.iter().enumerate() {
        assert_eq!(*b, 1u32 << i);
    }
}

#[test]
fn push_constants_default_to_zero() {
    let p = PushConstants::default();
    assert_eq!(p, PushConstants { vertex_shader_constants: 0, pixel_shader_constants: 0, shared_constants: 0 });
}

#[test]
fn shader_records_compare_by_fields() {
    let base = Shader { physical_offset: 1, size: 2, field_8: 3, field_c: 4, field_10: 5, interpolator_info: 6 };
    let vs = VertexShader {
        base,
        field_18: 0,
        vertex_element_count: 2,
        field_20: 0,
        vertex_elements_and_interpolators: 0x40,
    };
    let ps = PixelShader { base, field_18: 0, outputs: PIXEL_SHADER_OUTPUT_COLOR0 | PIXEL_SHADER_OUTPUT_DEPTH, interpolators: 1 };
    assert_eq!(vs.base, ps.base);
    assert_ne!(ps.outputs & PIXEL_SHADER_OUTPUT_DEPTH, 0);
    let e = VertexElement { address: 0, usage: DeclUsage::Position, usage_index: 0 };
    let i = Interpolator { usage_index: 0, usage: DeclUsage::TexCoord, reg: 1 };
    assert_ne!(e.usage, i.usage);
    let c = ShaderContainer {
        flags: 0x102A1100,
        virtual_size: 60,
        physical_size: 4,
        field_c: 0,
        constant_table_offset: 0,
        definition_table_offset: 0,
        shader_offset: 36,
        field_1c: 0,
        field_20: 0,
    };
    assert_eq!(c.shader_offset, 36);
    let d = DefinitionTable { field_0: 0, field_4: 0, field_8: 0, field_c: 0, size: 8 };
    let f = Float4Definition { register_index: 3, count: 2, physical_offset: 16 };
    let h = Int4DefinitionHeader { register_index: 1, count: 1 };
    assert_eq!(d.size, 8);
    assert_eq!(f.count, 2);
    assert_eq!(h, Int4DefinitionHeader { register_index: 1, count: 1 });
}

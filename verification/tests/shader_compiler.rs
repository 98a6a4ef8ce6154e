use xenos_recomp::shader::{DeclUsage, VertexElement};
use xenos_recomp::shader_compiler::{
    AluInstruction, ShaderCompiler, StringBuffer, TextureFetchInstruction, VertexFetchInstruction,
};

#[test]
fn string_buffer_starts_empty() {
    let buffer = StringBuffer::new();
    assert_eq!(buffer.out, "");
}

#[test]
fn print_appends_text() {
    let mut buffer = StringBuffer::new();
    buffer.print("float4 ");
    buffer.print("r0");
    assert_eq!(buffer.out, "float4 r0");
}

#[test]
fn println_appends_text_and_line_break() {
    let mut buffer = StringBuffer::new();
    buffer.println("a;");
    buffer.print("b");
    buffer.println("");
    assert_eq!(buffer.out, "a;\nb\n");
}

#[test]
fn print_keeps_unicode_text() {
    let mut buffer = StringBuffer::new();
    buffer.print("// é");
    assert_eq!(buffer.out, "// é");
}

#[test]
fn new_compiler_is_fresh() {
    let c = ShaderCompiler::new();
    assert_eq!(c.indentation, 0);
    assert!(!c.is_pixel_shader);
    assert!(c.constant_table_data.is_none());
    assert!(c.vertex_elements.is_empty());
    assert!(c.interpolators.is_empty());
    assert!(c.float4_constants.is_empty());
    assert!(c.bool_constants.is_empty());
    assert!(c.samplers.is_empty());
    assert!(c.if_end_labels.is_empty());
    assert_eq!(c.spec_constants_mask, 0);
    assert_eq!(c.buffer.out, "");
}

#[test]
fn default_compiler_is_fresh() {
    let c = ShaderCompiler::default();
    assert_eq!(c.indentation, 0);
    assert!(c.vertex_elements.is_empty());
    assert_eq!(c.buffer.out, "");
}

#[test]
fn indent_writes_one_tab_per_level() {
    let mut c = ShaderCompiler::new();
    c.indent();
    assert_eq!(c.buffer.out, "");
    c.indentation = 3;
    c.buffer.print("x");
    c.indent();
    assert_eq!(c.buffer.out, "x\t\t\t");
    assert_eq!(c.indentation, 3);
}

#[test]
fn decoders_leave_the_compiler_unchanged() {
    let mut c = ShaderCompiler::new();
    c.indentation = 2;
    c.buffer.print("start");
    c.vertex_elements.insert(
        4,
        VertexElement { address: 4, usage: DeclUsage::TexCoord, usage_index: 1 },
    );
    c.print_dst_swizzle(0x1234, true);
    c.print_dst_swizzle01(3, 0x5678);
    c.recompile_vertex_fetch(&VertexFetchInstruction, 12);
    c.recompile_texture_fetch(&TextureFetchInstruction, true);
    c.recompile_alu(&AluInstruction);
    c.recompile_shader(&[1, 2, 3, 4], "#include <common>");
    assert_eq!(c.buffer.out, "start");
    assert_eq!(c.indentation, 2);
    assert_eq!(c.vertex_elements.len(), 1);
    assert_eq!(c.spec_constants_mask, 0);
    assert!(!c.is_pixel_shader);
}

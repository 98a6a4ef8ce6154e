use xenos_recomp::shader_parsing::{
    parse_shader_container, sample_shader_container, ParseError, ParsedShader,
    ParsedShaderContainer,
};

fn words_to_bytes(words: &[u32]) -> Vec<u8> {
    let mut out = Vec::new();
    for w in words {
        out.extend_from_slice(&w.to_be_bytes());
    }
    out
}

#[test]
fn parses_sample_shader_container() {
    let data = sample_shader_container();
    let parsed = parse_shader_container(&data).expect("sample shader should parse");

    assert_eq!(parsed.flags, 0x102A1100);
    assert_eq!(parsed.virtual_size, 60);
    assert_eq!(parsed.physical_size, 4);
    assert_eq!(parsed.shader_offset, 36);
    assert_eq!(parsed.shader.size, 1);
}

#[test]
fn sample_container_bytes_are_big_endian_words() {
    let data = sample_shader_container();
    let expected = words_to_bytes(&[
        0x102A1100, 60, 4, 0, 0, 0, 36, 0, 0, 0, 1, 0, 0, 0, 0, 0,
    ]);
    assert_eq!(data.len(), 64);
    assert_eq!(&data[0..4], &[0x10, 0x2A, 0x11, 0x00]);
    assert_eq!(data, expected);
}

#[test]
fn sample_container_parses_to_every_word() {
    let parsed = parse_shader_container(&sample_shader_container()).unwrap();
    let expected = ParsedShaderContainer {
        flags: 0x102A1100,
        virtual_size: 60,
        physical_size: 4,
        field_c: 0,
        constant_table_offset: 0,
        definition_table_offset: 0,
        shader_offset: 36,
        field_1c: 0,
        field_20: 0,
        shader: ParsedShader {
            physical_offset: 0,
            size: 1,
            field_8: 0,
            field_c: 0,
            field_10: 0,
            interpolator_info: 0,
        },
    };
    assert_eq!(parsed, expected);
}

#[test]
fn short_buffer_is_too_small() {
    assert_eq!(parse_shader_container(&[]), Err(ParseError::BufferTooSmall));
    let data = vec![0u8; 35];
    assert_eq!(parse_shader_container(&data), Err(ParseError::BufferTooSmall));
}

#[test]
fn shader_past_the_end_is_out_of_bounds() {
    // Header only: the shader offset 36 leaves no room for the shader header.
    let data = words_to_bytes(&[0, 0, 0, 0, 0, 0, 36, 0, 0]);
    assert_eq!(parse_shader_container(&data), Err(ParseError::ShaderOutOfBounds));

    // One byte short of a full shader header.
    let mut data = words_to_bytes(&[0, 0, 0, 0, 0, 0, 36, 0, 0, 1, 2, 3, 4, 5]);
    data.extend_from_slice(&[0, 0, 0]);
    assert_eq!(parse_shader_container(&data), Err(ParseError::ShaderOutOfBounds));

    // An offset near the top of the u32 range.
    let data = words_to_bytes(&[0, 0, 0, 0, 0, 0, 0xFFFF_FFFF, 0, 0, 0, 0, 0, 0, 0, 0]);
    assert_eq!(parse_shader_container(&data), Err(ParseError::ShaderOutOfBounds));
}

#[test]
fn shader_header_ending_exactly_at_the_end_parses() {
    let data = words_to_bytes(&[7, 0, 0, 0, 0, 0, 36, 0, 0, 11, 12, 13, 14, 15, 16]);
    let parsed = parse_shader_container(&data).unwrap();
    assert_eq!(parsed.flags, 7);
    assert_eq!(
        parsed.shader,
        ParsedShader {
            physical_offset: 11,
            size: 12,
            field_8: 13,
            field_c: 14,
            field_10: 15,
            interpolator_info: 16,
        }
    );
}

#[test]
fn shader_header_may_overlap_the_container_header() {
    // Offset 8: the shader header is read from words 2..7 of the container header.
    let data = words_to_bytes(&[1, 2, 3, 4, 5, 6, 8, 9, 10]);
    let parsed = parse_shader_container(&data).unwrap();
    assert_eq!(parsed.shader.physical_offset, 3);
    assert_eq!(parsed.shader.interpolator_info, 9);
}

#[test]
fn unaligned_shader_offset_reads_bytes_across_words() {
    let mut data = words_to_bytes(&[0, 0, 0, 0, 0, 0, 37, 0, 0]);
    data.extend_from_slice(&[0xAA, 0x01, 0x02, 0x03, 0x04]);
    data.extend_from_slice(&[0u8; 20]);
    let parsed = parse_shader_container(&data).unwrap();
    assert_eq!(parsed.shader.physical_offset, 0x01020304);
}

#[test]
fn trailing_bytes_do_not_change_the_result() {
    let data = sample_shader_container();
    let mut longer = data.clone();
    longer.extend_from_slice(&[0xFF; 17]);
    assert_eq!(parse_shader_container(&longer), parse_shader_container(&data));
}

#[test]
fn every_header_word_is_read_big_endian() {
    let words = [
        0x01020304, 0x05060708, 0x090A0B0C, 0x0D0E0F10, 0x11121314, 0x15161718, 40, 0x191A1B1C,
        0x1D1E1F20, 0xDEADBEEF, 0xA0B0C0D0, 0x1, 0x2, 0x3, 0x4, 0x5,
    ];
    let parsed = parse_shader_container(&words_to_bytes(&words)).unwrap();
    assert_eq!(parsed.flags, 0x01020304);
    assert_eq!(parsed.virtual_size, 0x05060708);
    assert_eq!(parsed.physical_size, 0x090A0B0C);
    assert_eq!(parsed.field_c, 0x0D0E0F10);
    assert_eq!(parsed.constant_table_offset, 0x11121314);
    assert_eq!(parsed.definition_table_offset, 0x15161718);
    assert_eq!(parsed.shader_offset, 40);
    assert_eq!(parsed.field_1c, 0x191A1B1C);
    assert_eq!(parsed.field_20, 0x1D1E1F20);
    assert_eq!(parsed.shader.physical_offset, 0xA0B0C0D0);
    assert_eq!(parsed.shader.size, 1);
    assert_eq!(parsed.shader.interpolator_info, 5);
}

//! Reading the fixed header of an Xbox 360 shader container.
//!
//! A container starts with nine big-endian 32-bit words; the seventh of them
//! is the byte offset of a six-word shader header inside the same buffer.

use vstd::prelude::*;

verus! {

/// The six-word shader header that a container points at.
#[derive(Debug, Clone, Copy, PartialEq, Eq, Structural)]
pub struct ParsedShader {
    pub physical_offset: u32,
    pub size: u32,
    pub field_8: u32,
    pub field_c: u32,
    pub field_10: u32,
    pub interpolator_info: u32,
}

/// The nine header words of a container, with the shader header it points at.
#[derive(Debug, Clone, Copy, PartialEq, Eq, Structural)]
pub struct ParsedShaderContainer {
    pub flags: u32,
    pub virtual_size: u32,
    pub physical_size: u32,
    pub field_c: u32,
    pub constant_table_offset: u32,
    pub definition_table_offset: u32,
    pub shader_offset: u32,
    pub field_1c: u32,
    pub field_20: u32,
    pub shader: ParsedShader,
}

/// Why a buffer is not a shader container.
#[derive(Debug, Clone, Copy, PartialEq, Eq, Structural)]
pub enum ParseError {
    /// The buffer is shorter than the nine header words.
    BufferTooSmall,
    /// The shader header that the container points at does not fit in the buffer.
    ShaderOutOfBounds,
}

/// Size in bytes of the container header.
pub const CONTAINER_HEADER_SIZE: usize = 36;

/// Size in bytes of the shader header.
pub const SHADER_HEADER_SIZE: usize = 24;

/// The big-endian 32-bit word stored in `s[off..off + 4]`.
pub open spec fn be_u32_at(s: Seq<u8>, off: int) -> u32 {
    (s[off] as int * 0x1000000 + s[off + 1] as int * 0x10000 + s[off + 2] as int * 0x100
        + s[off + 3] as int) as u32
}

/// The four bytes of `x`, most significant first.
pub open spec fn be_bytes(x: u32) -> Seq<u8> {
    seq![
        (x / 0x1000000) as u8,
        ((x / 0x10000) % 0x100) as u8,
        ((x / 0x100) % 0x100) as u8,
        (x % 0x100) as u8,
    ]
}

/// The words of `ws`, each written as four big-endian bytes, one after the other.
pub open spec fn be_words(ws: Seq<u32>) -> Seq<u8>
    decreases ws.len(),
{
    if ws.len() == 0 {
        Seq::empty()
    } else {
        be_words(ws.drop_last()) + be_bytes(ws.last())
    }
}

/// The shader header stored at byte offset `off` of `s`.
pub open spec fn shader_at(s: Seq<u8>, off: int) -> ParsedShader {
    ParsedShader {
        physical_offset: be_u32_at(s, off),
        size: be_u32_at(s, off + 4),
        field_8: be_u32_at(s, off + 8),
        field_c: be_u32_at(s, off + 12),
        field_10: be_u32_at(s, off + 16),
        interpolator_info: be_u32_at(s, off + 20),
    }
}

/// What reading the container in `s` gives: the error when `s` is too short
/// for the header, or when the shader header it points at runs past the end of
/// `s`; else every header word and the shader header.
pub open spec fn spec_parse_shader_container(s: Seq<u8>) -> Result<ParsedShaderContainer, ParseError> {
    if s.len() < 36 {
        Err(ParseError::BufferTooSmall)
    } else if be_u32_at(s, 24) + 24 > s.len() {
        Err(ParseError::ShaderOutOfBounds)
    } else {
        Ok(
            ParsedShaderContainer {
                flags: be_u32_at(s, 0),
                virtual_size: be_u32_at(s, 4),
                physical_size: be_u32_at(s, 8),
                field_c: be_u32_at(s, 12),
                constant_table_offset: be_u32_at(s, 16),
                definition_table_offset: be_u32_at(s, 20),
                shader_offset: be_u32_at(s, 24),
                field_1c: be_u32_at(s, 28),
                field_20: be_u32_at(s, 32),
                shader: shader_at(s, be_u32_at(s, 24) as int),
            },
        )
    }
}

/// Reads the big-endian word at `offset`, or reports that the buffer ends first.
fn read_be_u32(data: &[u8], offset: usize) -> (r: Result<u32, ParseError>)
    requires
        offset <= usize::MAX - 4,
    ensures
        offset + 4 > data@.len() ==> r == Err::<u32, ParseError>(ParseError::BufferTooSmall),
        offset + 4 <= data@.len() ==> r == Ok::<u32, ParseError>(be_u32_at(data@, offset as int)),
{
    let end = offset + 4;
    if end > data.len() {
        return Err(ParseError::BufferTooSmall);
    }
    let b0 = data[offset] as u32;
    let b1 = data[offset + 1] as u32;
    let b2 = data[offset + 2] as u32;
    let b3 = data[offset + 3] as u32;
    Ok(b0 * 0x1000000 + b1 * 0x10000 + b2 * 0x100 + b3)
}

/// Reads the container header at the start of `data` and the shader header
/// that it points at.
pub fn parse_shader_container(data: &[u8]) -> (r: Result<ParsedShaderContainer, ParseError>)
    ensures
        r == spec_parse_shader_container(data@),
{
    if data.len() < CONTAINER_HEADER_SIZE {
        return Err(ParseError::BufferTooSmall);
    }
    let flags = read_be_u32(data, 0)?;
    let virtual_size = read_be_u32(data, 4)?;
    let physical_size = read_be_u32(data, 8)?;
    let field_c = read_be_u32(data, 12)?;
    let constant_table_offset = read_be_u32(data, 16)?;
    let definition_table_offset = read_be_u32(data, 20)?;
    let shader_offset = read_be_u32(data, 24)?;
    let field_1c = read_be_u32(data, 28)?;
    let field_20 = read_be_u32(data, 32)?;

    let shader_offset_usize = shader_offset as usize;
    if shader_offset_usize > data.len() - SHADER_HEADER_SIZE {
        return Err(ParseError::ShaderOutOfBounds);
    }

    let shader = ParsedShader {
        physical_offset: read_be_u32(data, shader_offset_usize)?,
        size: read_be_u32(data, shader_offset_usize + 4)?,
        field_8: read_be_u32(data, shader_offset_usize + 8)?,
        field_c: read_be_u32(data, shader_offset_usize + 12)?,
        field_10: read_be_u32(data, shader_offset_usize + 16)?,
        interpolator_info: read_be_u32(data, shader_offset_usize + 20)?,
    };

    Ok(
        ParsedShaderContainer {
            flags,
            virtual_size,
            physical_size,
            field_c,
            constant_table_offset,
            definition_table_offset,
            shader_offset,
            field_1c,
            field_20,
            shader,
        },
    )
}


/// Appends the four big-endian bytes of `x` to `out`.
fn push_be_u32(out: &mut Vec<u8>, x: u32)
    ensures
        final(out)@ == old(out)@ + be_bytes(x),
{
    out.push((x / 0x1000000) as u8);
    out.push(((x / 0x10000) % 0x100) as u8);
    out.push(((x / 0x100) % 0x100) as u8);
    out.push((x % 0x100) as u8);
    assert(final(out)@ =~= old(out)@ + be_bytes(x));
}

/// The words of the example container: a nine-word header whose shader
/// offset is 36, a six-word shader header of size 1 right behind it, and one
/// word of shader code.
pub open spec fn sample_words() -> Seq<u32> {
    seq![
        0x102A1100u32, 60, 4, 0, 0, 0, 36, 0, 0,
        0, 1, 0, 0, 0, 0,
        0,
    ]
}

/// Builds a small, well-formed example container.
pub fn sample_shader_container() -> (data: Vec<u8>)
    ensures
        data@ == be_words(sample_words()),
{
    let words: [u32; 16] = [
        0x102A1100u32, 60, 4, 0, 0, 0, 36, 0, 0,
        0, 1, 0, 0, 0, 0,
        0,
    ];
    assert(words@ =~= sample_words());
    let mut data: Vec<u8> = Vec::new();
    let mut i: usize = 0;
    while i < 16
        invariant
            i <= 16,
            words@ == sample_words(),
            data@ == be_words(words@.take(i as int)),
        decreases 16 - i,
    {
        assert(words@.take(i + 1).drop_last() =~= words@.take(i as int));
        push_be_u32(&mut data, words[i]);
        i = i + 1;
    }
    assert(words@.take(16) =~= words@);
    data
}


/// The container header and shader header read from the words `ws`, when the
/// shader offset `ws[6]` names a whole word.
pub open spec fn container_of_words(ws: Seq<u32>) -> ParsedShaderContainer {
    let k = ws[6] / 4;
    ParsedShaderContainer {
        flags: ws[0],
        virtual_size: ws[1],
        physical_size: ws[2],
        field_c: ws[3],
        constant_table_offset: ws[4],
        definition_table_offset: ws[5],
        shader_offset: ws[6],
        field_1c: ws[7],
        field_20: ws[8],
        shader: ParsedShader {
            physical_offset: ws[k as int],
            size: ws[k + 1],
            field_8: ws[k + 2],
            field_c: ws[k + 3],
            field_10: ws[k + 4],
            interpolator_info: ws[k + 5],
        },
    }
}

/// Reading back the four big-endian bytes of a word gives the word.
pub proof fn lemma_be_bytes_read_back(x: u32)
    ensures
        be_bytes(x).len() == 4,
        be_u32_at(be_bytes(x), 0) == x,
{
    let a = x / 0x1000000;
    let b = (x / 0x10000) % 0x100;
    let c = (x / 0x100) % 0x100;
    let d = x % 0x100;
    assert(a * 0x1000000 + b * 0x10000 + c * 0x100 + d == x) by (nonlinear_arith)
        requires
            a == x / 0x1000000,
            b == (x / 0x10000) % 0x100,
            c == (x / 0x100) % 0x100,
            d == x % 0x100,
    ;
    assert(a < 0x100 && b < 0x100 && c < 0x100 && d < 0x100);
}

/// Writing words as big-endian bytes takes four bytes per word.
pub proof fn lemma_be_words_len(ws: Seq<u32>)
    ensures
        be_words(ws).len() == 4 * ws.len(),
    decreases ws.len(),
{
    if ws.len() > 0 {
        lemma_be_words_len(ws.drop_last());
    }
}

/// The word read at byte offset `4 * i` of words written as big-endian bytes
/// is word `i`.
pub proof fn lemma_be_words_read_back(ws: Seq<u32>, i: int)
    requires
        0 <= i < ws.len(),
    ensures
        be_u32_at(be_words(ws), 4 * i) == ws[i],
    decreases ws.len(),
{
    let prev = ws.drop_last();
    lemma_be_words_len(prev);
    lemma_be_bytes_read_back(ws.last());
    let s = be_words(ws);
    let tail = be_bytes(ws.last());
    assert(s == be_words(prev) + tail);
    if i == ws.len() - 1 {
        assert(s[4 * i] == tail[0]);
        assert(s[4 * i + 1] == tail[1]);
        assert(s[4 * i + 2] == tail[2]);
        assert(s[4 * i + 3] == tail[3]);
    } else {
        lemma_be_words_read_back(prev, i);
        assert(s[4 * i] == be_words(prev)[4 * i]);
        assert(s[4 * i + 1] == be_words(prev)[4 * i + 1]);
        assert(s[4 * i + 2] == be_words(prev)[4 * i + 2]);
        assert(s[4 * i + 3] == be_words(prev)[4 * i + 3]);
    }
}

/// A container written word by word in big-endian order, whose shader offset
/// names a whole word and whose shader header lies within the words, reads
/// back as exactly those words.
pub proof fn lemma_parse_be_words(ws: Seq<u32>)
    requires
        ws.len() >= 9,
        ws[6] % 4 == 0,
        ws[6] / 4 + 6 <= ws.len(),
    ensures
        spec_parse_shader_container(be_words(ws)) == Ok::<ParsedShaderContainer, ParseError>(
            container_of_words(ws),
        ),
{
    let s = be_words(ws);
    lemma_be_words_len(ws);
    let k: int = (ws[6] / 4) as int;
    assert forall|i: int| 0 <= i < ws.len() implies be_u32_at(s, 4 * i) == ws[i] by {
        lemma_be_words_read_back(ws, i);
    }
    assert(be_u32_at(s, 0) == ws[0]);
    assert(be_u32_at(s, 4) == ws[1]);
    assert(be_u32_at(s, 8) == ws[2]);
    assert(be_u32_at(s, 12) == ws[3]);
    assert(be_u32_at(s, 16) == ws[4]);
    assert(be_u32_at(s, 20) == ws[5]);
    assert(be_u32_at(s, 24) == ws[6]);
    assert(be_u32_at(s, 28) == ws[7]);
    assert(be_u32_at(s, 32) == ws[8]);
    assert(be_u32_at(s, 4 * k) == ws[k]);
    assert(be_u32_at(s, 4 * (k + 1)) == ws[k + 1]);
    assert(be_u32_at(s, 4 * (k + 2)) == ws[k + 2]);
    assert(be_u32_at(s, 4 * (k + 3)) == ws[k + 3]);
    assert(be_u32_at(s, 4 * (k + 4)) == ws[k + 4]);
    assert(be_u32_at(s, 4 * (k + 5)) == ws[k + 5]);
    assert(spec_parse_shader_container(s) =~= Ok::<ParsedShaderContainer, ParseError>(
        container_of_words(ws),
    ));
}

/// Bytes after a well-formed container do not change what it reads as.
pub proof fn lemma_parse_ignores_trailing_bytes(s: Seq<u8>, t: Seq<u8>)
    requires
        spec_parse_shader_container(s) is Ok,
    ensures
        spec_parse_shader_container(s + t) == spec_parse_shader_container(s),
{
    let st = s + t;
    assert forall|i: int| 0 <= i < s.len() implies st[i] == s[i] by {}
    assert(be_u32_at(st, 24) == be_u32_at(s, 24));
    let off = be_u32_at(s, 24) as int;
    assert(shader_at(st, off) == shader_at(s, off));
    assert(be_u32_at(st, 0) == be_u32_at(s, 0));
    assert(be_u32_at(st, 4) == be_u32_at(s, 4));
    assert(be_u32_at(st, 8) == be_u32_at(s, 8));
    assert(be_u32_at(st, 12) == be_u32_at(s, 12));
    assert(be_u32_at(st, 16) == be_u32_at(s, 16));
    assert(be_u32_at(st, 20) == be_u32_at(s, 20));
    assert(be_u32_at(st, 28) == be_u32_at(s, 28));
    assert(be_u32_at(st, 32) == be_u32_at(s, 32));
}

} // verus!

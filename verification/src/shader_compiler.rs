//! The state of a shader recompiler and the text buffer it writes HLSL into.
//!
//! The instruction decoders (`recompile_*`, `print_dst_swizzle*`) leave the
//! recompiler as they found it: decoding of Xenos microcode is outside this
//! library, and their contracts say exactly that.

use std::collections::HashMap;

use vstd::prelude::*;

use crate::shader::VertexElement;

verus! {

/// Text that the recompiler has produced so far.
pub struct StringBuffer {
    pub out: String,
}

impl StringBuffer {
    /// An empty buffer.
    pub fn new() -> (r: Self)
        ensures
            r.out@ == Seq::<char>::empty(),
    {
        StringBuffer { out: String::new() }
    }

    /// Appends `text`.
    pub fn print(&mut self, text: &str)
        ensures
            final(self).out@ == old(self).out@ + text@,
    {
        self.out.append(text);
    }

    /// Appends `text` and a line break.
    pub fn println(&mut self, text: &str)
        ensures
            final(self).out@ == old(self).out@ + text@ + seq!['\n'],
    {
        self.out.append(text);
        let newline = "\n";
        proof {
            reveal_strlit("\n");
        }
        self.out.append(newline);
    }
}

/// `n` tab characters.
pub open spec fn tabs(n: nat) -> Seq<char> {
    Seq::new(n, |i: int| '\t')
}

/// A vertex fetch instruction of Xenos microcode.
#[derive(Debug, Clone, Copy)]
pub struct VertexFetchInstruction;

/// A texture fetch instruction of Xenos microcode.
#[derive(Debug, Clone, Copy)]
pub struct TextureFetchInstruction;

/// An ALU instruction of Xenos microcode.
#[derive(Debug, Clone, Copy)]
pub struct AluInstruction;

/// The state of one recompilation: what is known of the shader and the HLSL
/// written so far.
pub struct ShaderCompiler {
    pub indentation: u32,
    pub is_pixel_shader: bool,
    pub constant_table_data: Option<Vec<u8>>,
    pub vertex_elements: HashMap<u32, VertexElement>,
    pub interpolators: HashMap<u32, String>,
    pub float4_constants: HashMap<u32, String>,
    pub bool_constants: HashMap<u32, String>,
    pub samplers: HashMap<u32, String>,
    pub if_end_labels: HashMap<u32, u32>,
    pub spec_constants_mask: u32,
    pub buffer: StringBuffer,
}

impl ShaderCompiler {
    /// No indentation, no shader seen, nothing written.
    pub open spec fn is_fresh(&self) -> bool {
        &&& self.indentation == 0
        &&& !self.is_pixel_shader
        &&& self.constant_table_data is None
        &&& self.vertex_elements@ == Map::<u32, VertexElement>::empty()
        &&& self.interpolators@ == Map::<u32, String>::empty()
        &&& self.float4_constants@ == Map::<u32, String>::empty()
        &&& self.bool_constants@ == Map::<u32, String>::empty()
        &&& self.samplers@ == Map::<u32, String>::empty()
        &&& self.if_end_labels@ == Map::<u32, u32>::empty()
        &&& self.spec_constants_mask == 0
        &&& self.buffer.out@ == Seq::<char>::empty()
    }

    /// `self` and `other` agree on everything but the text written.
    pub open spec fn same_state_as(&self, other: &ShaderCompiler) -> bool {
        &&& self.indentation == other.indentation
        &&& self.is_pixel_shader == other.is_pixel_shader
        &&& self.constant_table_data == other.constant_table_data
        &&& self.vertex_elements == other.vertex_elements
        &&& self.interpolators == other.interpolators
        &&& self.float4_constants == other.float4_constants
        &&& self.bool_constants == other.bool_constants
        &&& self.samplers == other.samplers
        &&& self.if_end_labels == other.if_end_labels
        &&& self.spec_constants_mask == other.spec_constants_mask
    }

    /// A recompiler in its initial state.
    pub fn new() -> (r: Self)
        ensures
            r.is_fresh(),
    {
        ShaderCompiler {
            indentation: 0,
            is_pixel_shader: false,
            constant_table_data: None,
            vertex_elements: HashMap::new(),
            interpolators: HashMap::new(),
            float4_constants: HashMap::new(),
            bool_constants: HashMap::new(),
            samplers: HashMap::new(),
            if_end_labels: HashMap::new(),
            spec_constants_mask: 0,
            buffer: StringBuffer::new(),
        }
    }

    /// Writes one tab per level of indentation.
    pub fn indent(&mut self)
        ensures
            final(self).same_state_as(old(self)),
            final(self).buffer.out@ == old(self).buffer.out@ + tabs(old(self).indentation as nat),
    {
        let n = self.indentation;
        let tab = "\t";
        proof {
            reveal_strlit("\t");
        }
        let mut i: u32 = 0;
        while i < n
            invariant
                i <= n,
                n == old(self).indentation,
                self.same_state_as(old(self)),
                tab@ == seq!['\t'],
                self.buffer.out@ == old(self).buffer.out@ + tabs(i as nat),
            decreases n - i,
        {
            self.buffer.out.append(tab);
            assert(tabs((i + 1) as nat) =~= tabs(i as nat) + seq!['\t']);
            i = i + 1;
        }
    }

    /// Destination swizzle output: leaves the recompiler unchanged.
    pub fn print_dst_swizzle(&mut self, dst_swizzle: u32, operand: bool)
        ensures
            *final(self) == *old(self),
    {
    }

    /// Destination swizzle output for constant 0/1 lanes: leaves the recompiler unchanged.
    pub fn print_dst_swizzle01(&mut self, dst_register: u32, dst_swizzle: u32)
        ensures
            *final(self) == *old(self),
    {
    }

    /// Vertex fetch decoding: leaves the recompiler unchanged.
    pub fn recompile_vertex_fetch(&mut self, instr: &VertexFetchInstruction, address: u32)
        ensures
            *final(self) == *old(self),
    {
    }

    /// Texture fetch decoding: leaves the recompiler unchanged.
    pub fn recompile_texture_fetch(&mut self, instr: &TextureFetchInstruction, bicubic: bool)
        ensures
            *final(self) == *old(self),
    {
    }

    /// ALU instruction decoding: leaves the recompiler unchanged.
    pub fn recompile_alu(&mut self, instr: &AluInstruction)
        ensures
            *final(self) == *old(self),
    {
    }

    /// Shader decoding: leaves the recompiler unchanged.
    pub fn recompile_shader(&mut self, shader_data: &[u8], common_header: &str)
        ensures
            *final(self) == *old(self),
    {
    }
}

impl Default for ShaderCompiler {
    fn default() -> (r: Self)
        ensures
            r.is_fresh(),
    {
        ShaderCompiler::new()
    }
}

} // verus!

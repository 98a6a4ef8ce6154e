# xenos_recomp

Reading Xbox 360 (Xenos) shader containers and driving their recompilation to
HLSL, written in Verus with the decisions of the tool stated as contracts and
proved.

- `src/shader_parsing.rs`: the container header reader, with laws on reading
  back big-endian words and on trailing bytes.
- `src/constant_table.rs`: big-endian constant-table fields (`Be<T>`, `BeType`)
  and their decode/encode law.
- `src/shader.rs`, `src/shader_common.rs`: the shader records and flag bits.
- `src/shader_compiler.rs`: the recompiler state and its text buffer.
- `src/dx_compiler.rs`: the DXC command line, its UTF-16 encoding, and the
  step-by-step decisions of a DXC compilation.
- `src/dxc_compiler.rs`: the compiler front end used by the tool.
- `src/recompiler.rs`: keeping one shader per content hash and recompiling
  each.
- `app/`: the command-line program and the native DXC calls.

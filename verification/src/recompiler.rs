//! Recompiling the shaders found in game files.
//!
//! Shader containers are gathered from every input file and kept once per
//! content hash, the first container seen for a hash winning; each kept
//! container is then recompiled to HLSL and handed to the compiler front end
//! for DXIL and SPIR-V.

use std::collections::BTreeMap;
use std::collections::hash_map::DefaultHasher;
use std::hash::Hash;
use std::hash::Hasher;

use vstd::prelude::*;
use vstd::std_specs::hash::DefaultHasherAdditionalSpecFns;
use vstd::std_specs::iter::IteratorSpec;

use crate::dxc_compiler::DxcCompiler;
use crate::shader_compiler::ShaderCompiler;

verus! {

broadcast use vstd::laws_cmp::group_laws_cmp, vstd::std_specs::btree::group_btree_axioms;

/// One shader container and what recompiling it produced.
#[derive(Debug)]
pub struct RecompiledShader {
    pub data: Vec<u8>,
    pub dxil: Option<Vec<u8>>,
    pub spirv: Vec<u8>,
    pub spec_constants_mask: u32,
}

impl RecompiledShader {
    /// `self` holds the container `data` and nothing recompiled yet.
    pub open spec fn is_unrecompiled(&self, data: Seq<u8>) -> bool {
        &&& self.data@ == data
        &&& self.dxil is None
        &&& self.spirv@ == Seq::<u8>::empty()
        &&& self.spec_constants_mask == 0
    }

    /// A container that has not been recompiled yet.
    pub fn new(data: Vec<u8>) -> (r: Self)
        ensures
            r.is_unrecompiled(data@),
    {
        RecompiledShader { data, dxil: None, spirv: Vec::new(), spec_constants_mask: 0 }
    }
}

impl Default for RecompiledShader {
    fn default() -> (r: Self)
        ensures
            r.is_unrecompiled(Seq::<u8>::empty()),
    {
        RecompiledShader::new(Vec::new())
    }
}

/// The shader containers found in the bytes of a game file. No container
/// format is recognised inside other files, so none are found.
pub fn collect_shader_containers(data: &[u8]) -> (r: Vec<Vec<u8>>)
    ensures
        r@.len() == 0,
{
    Vec::new()
}

/// `<[u8] as Hash>::hash`: std's implementation for slices writes a length
/// prefix (`write_length_prefix`, which `DefaultHasher` turns into one
/// `write` of the length's native bytes) and then, since `u8::hash_slice`
/// writes the raw bytes at once, one `write` of exactly the slice. The
/// contract says that the hasher receives two writes, the second being the
/// bytes; the prefix is left unnamed, as its width and byte order are those
/// of the target.
#[verifier::external_body]
fn hash_bytes_into(data: &[u8], state: &mut DefaultHasher)
    ensures
        exists|prefix: Seq<u8>| final(state)@ == old(state)@ + seq![prefix, data@],
{
    data.hash(state)
}

/// `key` is the std default hash of the bytes `data`: what a fresh
/// `DefaultHasher` finishes with after the slice `data` was hashed into it,
/// that is, after a length prefix and then exactly the bytes `data`.
pub open spec fn is_default_hash_of(key: u64, data: Seq<u8>) -> bool {
    exists|prefix: Seq<u8>| key == DefaultHasher::spec_finish(seq![prefix, data])
}

/// The content hash under which a container is kept: the std default hash of
/// exactly the container's bytes. std does not fix the hash function across
/// releases, so its value is stated through the hasher's own `finish`.
pub fn hash_shader(data: &[u8]) -> (r: u64)
    ensures
        is_default_hash_of(r, data@),
{
    let mut hasher = DefaultHasher::new();
    hash_bytes_into(data, &mut hasher);
    hasher.finish()
}

/// `after` is `before` with `container` kept under `hash`, unless a
/// container was kept there already, in which case nothing changed.
pub open spec fn kept_after_add(
    before: Map<u64, RecompiledShader>,
    after: Map<u64, RecompiledShader>,
    hash: u64,
    container: Seq<u8>,
) -> bool {
    if before.contains_key(hash) {
        after == before
    } else {
        &&& after.dom() == before.dom().insert(hash)
        &&& after[hash].is_unrecompiled(container)
        &&& forall|k: u64| #[trigger] before.contains_key(k) ==> after[k] == before[k]
    }
}

/// Keeps `container` under `hash` unless a container is already kept there.
pub fn add_shader(shaders: &mut BTreeMap<u64, RecompiledShader>, hash: u64, container: Vec<u8>)
    ensures
        kept_after_add(old(shaders)@, final(shaders)@, hash, container@),
{
    if !shaders.contains_key(&hash) {
        shaders.insert(hash, RecompiledShader::new(container));
    }
}

/// Of two containers added under the same hash, the first one stays kept,
/// as a fresh, not yet recompiled shader, whatever the second one holds.
pub proof fn lemma_first_container_wins(
    m0: Map<u64, RecompiledShader>,
    m1: Map<u64, RecompiledShader>,
    m2: Map<u64, RecompiledShader>,
    hash: u64,
    first: Seq<u8>,
    second: Seq<u8>,
)
    requires
        !m0.contains_key(hash),
        kept_after_add(m0, m1, hash, first),
        kept_after_add(m1, m2, hash, second),
    ensures
        m2.contains_key(hash),
        m2[hash].is_unrecompiled(first),
        m2.dom() == m0.dom().insert(hash),
{
}

/// Keeps each shader container of a file under its hash, the first one seen
/// for a hash winning. Since no containers are recognised in files, the kept
/// shaders do not change.
pub fn add_file_shaders(shaders: &mut BTreeMap<u64, RecompiledShader>, file_data: &[u8])
    ensures
        final(shaders)@ == old(shaders)@,
{
    let mut containers = collect_shader_containers(file_data);
    let n = containers.len();
    let mut i: usize = 0;
    while i < n
        invariant
            n == 0,
            i <= n,
            containers@.len() == n - i,
            shaders@ == old(shaders)@,
        decreases n - i,
    {
        let container = containers.remove(0);
        let hash = hash_shader(&container);
        add_shader(shaders, hash, container);
        i = i + 1;
    }
}

/// What recompiling a kept shader leaves in it: its container, no DXIL, no
/// SPIR-V and no specialization constants, since the recompiler writes no
/// HLSL and the compiler front end refuses every compilation.
pub open spec fn is_recompiled(s: RecompiledShader, data: Seq<u8>) -> bool {
    s.is_unrecompiled(data)
}

/// Recompiles one kept shader: runs the recompiler on its container, records
/// the specialization constants it used, and compiles its HLSL to DXIL (as a
/// library when it uses specialization constants) and to SPIR-V.
pub fn recompile_entry(shader: &mut RecompiledShader, common_header: &str, dxc: &DxcCompiler)
    ensures
        is_recompiled(*final(shader), old(shader).data@),
{
    let mut recompiler = ShaderCompiler::new();
    recompiler.recompile_shader(shader.data.as_slice(), common_header);
    shader.spec_constants_mask = recompiler.spec_constants_mask;

    shader.dxil = dxc.compile(
        recompiler.buffer.out.as_str(),
        recompiler.is_pixel_shader,
        shader.spec_constants_mask != 0,
        false,
    ).ok();

    shader.spirv = match dxc.compile(
        recompiler.buffer.out.as_str(),
        recompiler.is_pixel_shader,
        false,
        true,
    ) {
        Ok(code) => code,
        Err(_) => Vec::new(),
    };
}

/// The hashes under which shaders are kept, in increasing order.
fn kept_hashes(shaders: &BTreeMap<u64, RecompiledShader>) -> (r: Vec<u64>)
    ensures
        r@.to_set() == shaders@.dom(),
{
    let mut hashes: Vec<u64> = Vec::new();
    let keys = shaders.keys();
    proof {
        broadcast use vstd::std_specs::btree::axiom_spec_keys_iter;
    }
    assert(keys.remaining().unref().to_set() == shaders@.dom());
    let ghost all = keys.remaining().unref();
    for k in it: keys
        invariant
            all == it.seq().unref(),
            hashes@ == all.take(it.index()),
    {
        assert(all.take(it.index() + 1) =~= all.take(it.index()).push(*k));
        hashes.push(*k);
    }
    assert(all.take(all.len() as int) =~= all);
    hashes
}

/// Recompiles every kept shader.
pub fn recompile_all(shaders: &mut BTreeMap<u64, RecompiledShader>, common_header: &str)
    ensures
        final(shaders)@.dom() == old(shaders)@.dom(),
        forall|k: u64| #[trigger]
            final(shaders)@.contains_key(k) ==> is_recompiled(final(shaders)@[k], old(shaders)@[k].data@),
{
    let dxc = DxcCompiler::new();
    let hashes = kept_hashes(shaders);
    let n = hashes.len();
    let mut i: usize = 0;
    while i < n
        invariant
            i <= n,
            n == hashes@.len(),
            hashes@.to_set() == old(shaders)@.dom(),
            shaders@.dom() == old(shaders)@.dom(),
            forall|k: u64| #[trigger] shaders@.contains_key(k) ==> shaders@[k].data@ == old(shaders)@[k].data@,
            forall|j: int| 0 <= j < i ==> is_recompiled(shaders@[#[trigger] hashes@[j]], old(shaders)@[hashes@[j]].data@),
        decreases n - i,
    {
        let hash = hashes[i];
        assert(hashes@.to_set().contains(hash));
        match shaders.remove(&hash) {
            Some(mut shader) => {
                recompile_entry(&mut shader, common_header, &dxc);
                shaders.insert(hash, shader);
            },
            None => {},
        }
        i = i + 1;
    }
    assert forall|k: u64| #[trigger] shaders@.contains_key(k) implies is_recompiled(shaders@[k], old(shaders)@[k].data@) by {
        assert(hashes@.to_set().contains(k));
        let j = choose|j: int| 0 <= j < hashes@.len() && hashes@[j] == k;
        assert(is_recompiled(shaders@[hashes@[j]], old(shaders)@[hashes@[j]].data@));
    }
}

/// The HLSL that recompiling a single shader file produces: the text that a
/// fresh recompiler holds after decoding it, which is empty.
pub fn recompile_single(data: &[u8], common_header: &str) -> (r: String)
    ensures
        r@ == Seq::<char>::empty(),
{
    let mut recompiler = ShaderCompiler::new();
    recompiler.recompile_shader(data, common_header);
    recompiler.buffer.out
}

} // verus!

use std::collections::BTreeMap;

use xenos_recomp::dxc_compiler::DxcCompiler;
use xenos_recomp::recompiler::{
    add_file_shaders, add_shader, collect_shader_containers, hash_shader, recompile_all,
    recompile_entry, recompile_single, RecompiledShader,
};
use xenos_recomp::shader_parsing::sample_shader_container;

#[test]
fn no_containers_are_found_in_files() {
    assert!(collect_shader_containers(&[]).is_empty());
    assert!(collect_shader_containers(&sample_shader_container()).is_empty());
}

#[test]
fn hash_is_stable_within_a_run() {
    let a = sample_shader_container();
    assert_eq!(hash_shader(&a), hash_shader(&a.clone()));
}

#[test]
fn first_container_for_a_hash_is_kept() {
    let mut shaders = BTreeMap::new();
    add_shader(&mut shaders, 7, vec![1, 2, 3]);
    add_shader(&mut shaders, 7, vec![9, 9]);
    add_shader(&mut shaders, 3, vec![4]);
    assert_eq!(shaders.len(), 2);
    assert_eq!(shaders[&7].data, vec![1, 2, 3]);
    assert_eq!(shaders[&3].data, vec![4]);
    assert!(shaders[&7].dxil.is_none());
    assert!(shaders[&7].spirv.is_empty());
    assert_eq!(shaders[&7].spec_constants_mask, 0);
}

#[test]
fn adding_a_file_keeps_the_shaders_as_they_were() {
    let mut shaders = BTreeMap::new();
    add_shader(&mut shaders, 1, vec![5]);
    add_file_shaders(&mut shaders, &sample_shader_container());
    assert_eq!(shaders.len(), 1);
    assert_eq!(shaders[&1].data, vec![5]);
}

#[test]
fn recompiling_an_entry_keeps_its_container() {
    let mut shader = RecompiledShader::new(vec![1, 2, 3]);
    shader.spec_constants_mask = 5;
    shader.spirv = vec![7];
    shader.dxil = Some(vec![8]);
    recompile_entry(&mut shader, "", &DxcCompiler::new());
    assert_eq!(shader.data, vec![1, 2, 3]);
    assert_eq!(shader.spec_constants_mask, 0);
    assert!(shader.dxil.is_none());
    assert!(shader.spirv.is_empty());
}

#[test]
fn recompiling_all_touches_every_entry() {
    let mut shaders = BTreeMap::new();
    for (h, data) in [(30u64, vec![3u8]), (10, vec![1]), (20, vec![2])] {
        add_shader(&mut shaders, h, data);
    }
    shaders.get_mut(&20).unwrap().spec_constants_mask = 9;
    recompile_all(&mut shaders, "common");
    let keys: Vec<u64> = shaders.keys().copied().collect();
    assert_eq!(keys, vec![10, 20, 30]);
    for (h, s) in &shaders {
        assert_eq!(s.data, vec![(*h / 10) as u8]);
        assert_eq!(s.spec_constants_mask, 0);
        assert!(s.dxil.is_none());
        assert!(s.spirv.is_empty());
    }
}

#[test]
fn single_file_recompiles_to_empty_text() {
    assert_eq!(recompile_single(&sample_shader_container(), "common"), "");
}

#[test]
fn default_shader_is_empty() {
    let s = RecompiledShader::default();
    assert!(s.data.is_empty());
    assert!(s.dxil.is_none());
    assert!(s.spirv.is_empty());
    assert_eq!(s.spec_constants_mask, 0);
}

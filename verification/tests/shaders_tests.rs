use pilka::shaders::{
    flavour_from_extension, is_supported, parse_folder, source_type_from_extension, str_contains,
    unrolled_sample_count, Notice, ShaderKind, ShaderSource,
};
use pilka::types::{ContiniousHashMap, ShaderFlavour, ShaderType};
use std::path::PathBuf;

#[test]
fn sample_counts() {
    for n in [1, 2, 4, 8, 16] {
        assert!(unrolled_sample_count(n));
    }
    for n in [0, 3, 32, 6] {
        assert!(!unrolled_sample_count(n));
    }
}

#[test]
fn extensions_name_languages() {
    assert!(matches!(flavour_from_extension(Some("wgsl")), Some(ShaderFlavour::Wgsl)));
    assert!(matches!(flavour_from_extension(Some("frag")), Some(ShaderFlavour::Glsl)));
    assert!(flavour_from_extension(Some("spv")).is_none());
    assert!(flavour_from_extension(None).is_none());
    assert!(matches!(source_type_from_extension(Some("spv")), Some(ShaderType::Spir)));
    assert!(matches!(source_type_from_extension(Some("comp")), Some(ShaderType::Glsl)));
    assert!(source_type_from_extension(Some("txt")).is_none());
    assert!(is_supported(Some("txt")));
    assert!(!is_supported(None));
}

#[test]
fn substring_search() {
    assert!(str_contains("shaders/shader.frag", "frag"));
    assert!(str_contains("frag", "frag"));
    assert!(!str_contains("fra", "frag"));
    assert!(str_contains("anything", ""));
}

#[test]
fn shader_folder_sorting() {
    let paths: Vec<String> = ["s/readme.md", "s/shader.frag", "s/shader.vert", "s/prelude.glsl", "s/other.frag", "s/shader.comp", "s/misc.glsl"]
        .iter()
        .map(|s| s.to_string())
        .collect();
    let extensions = vec![
        Some("md".to_string()),
        Some("frag".to_string()),
        Some("vert".to_string()),
        Some("glsl".to_string()),
        Some("frag".to_string()),
        Some("comp".to_string()),
        Some("glsl".to_string()),
    ];
    let folder = parse_folder(&paths, &extensions);
    assert_eq!(folder.frag.as_ref().unwrap().path, "s/shader.frag");
    assert_eq!(folder.vert.as_ref().unwrap().path, "s/shader.vert");
    assert_eq!(folder.comp.as_ref().unwrap().path, "s/shader.comp");
    assert_eq!(folder.glsl_prelude.as_deref(), Some("s/prelude.glsl"));
    assert_eq!(folder.notices, vec![Notice::Ignored(0), Notice::Rejected(4), Notice::Rejected(6)]);
}

#[test]
fn continious_map_keeps_values() {
    let mut map: ContiniousHashMap<u64, usize> = ContiniousHashMap::new();
    assert!(map.is_empty());
    map.push_value(3, 1);
    map.push_value(3, 2);
    map.push_value(3, 1);
    map.push_value(4, 9);
    assert_eq!(map.len(), 2);
    let mut values: Vec<usize> = map.get(&3).unwrap().iter().copied().collect();
    values.sort();
    assert_eq!(values, vec![1, 2]);
    assert!(map.get(&4).unwrap().contains(&9));
}

#[test]
fn shader_sources_compare_by_path_and_kind() {
    let a = ShaderSource { path: PathBuf::from("shaders/shader.vert"), kind: ShaderKind::Vertex };
    let b = a.clone();
    assert_eq!(a, b);
    let c = ShaderSource { kind: ShaderKind::Fragment, ..a.clone() };
    assert_ne!(a, c);
}

#[test]
fn map_push_twice_is_push_once() {
    let mut once: ContiniousHashMap<u64, usize> = ContiniousHashMap::new();
    let mut twice: ContiniousHashMap<u64, usize> = ContiniousHashMap::new();
    for (k, v) in [(1, 10), (2, 20), (1, 11)] {
        once.push_value(k, v);
        twice.push_value(k, v);
    }
    once.push_value(5, 50);
    twice.push_value(5, 50);
    twice.push_value(5, 50);
    assert_eq!(*once, *twice);
    assert_eq!(twice.get(&5).unwrap().len(), 1);
}

#[test]
fn map_pushes_in_either_order() {
    let mut a: ContiniousHashMap<u64, usize> = ContiniousHashMap::new();
    let mut b: ContiniousHashMap<u64, usize> = ContiniousHashMap::new();
    a.push_value(1, 10);
    a.push_value(2, 20);
    a.push_value(1, 11);
    b.push_value(1, 11);
    b.push_value(2, 20);
    b.push_value(1, 10);
    assert_eq!(*a, *b);
}

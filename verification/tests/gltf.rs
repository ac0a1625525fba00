use meshlet_scene::DefaultScene;
use meshlet_scene::ExtensionsRequired;
use meshlet_scene::ExtensionsUsed;
use meshlet_scene::GltfComponent;
use meshlet_scene::GltfFileType;
use meshlet_scene::GltfLoaderSettings;
use meshlet_scene::GltfNode;
use meshlet_scene::GltfRoot;
use meshlet_scene::GltfSaverSettings;
use meshlet_scene::Is;
use meshlet_scene::Version;

#[test]
fn loader_settings_default_loads_everything() {
    let s = GltfLoaderSettings::default();
    assert!(s.gltf_asset_loaders.is_empty());
    assert!(s.load_meshes);
    assert!(s.load_cameras);
    assert!(s.load_lights);
}

#[test]
fn saver_settings_default_is_single_json_file() {
    let s = GltfSaverSettings::default();
    assert!(s.manual_extensions.is_empty());
    assert!(s.manual_extras.is_empty());
    assert!(!s.no_required_extensions);
    assert!(s.single_file);
    assert_eq!(s.save_format, GltfFileType::JSON);
}

struct Mesh;

#[test]
fn is_component_carries_its_index() {
    let tag: Is<Mesh> = Is::new(4);
    assert_eq!(tag.index, 4);
}

fn component_name<C: GltfComponent>(_c: &C, name: &str) -> String {
    name.to_string()
}

#[test]
fn document_components_hold_plain_values() {
    let root = GltfRoot;
    let node = GltfNode;
    let used = ExtensionsUsed { extensions: vec!["KHR_lights_punctual".to_string()] };
    let required = ExtensionsRequired { extensions: Vec::new() };
    let version = Version { version: "2.0".to_string() };
    let scene = DefaultScene { default_scene: 0 };
    assert_eq!(component_name(&root, "root"), "root");
    assert_eq!(component_name(&node, "node"), "node");
    assert_eq!(used.extensions.len(), 1);
    assert!(required.extensions.is_empty());
    assert_eq!(version.version, "2.0");
    assert_eq!(component_name(&scene, "scene"), "scene");
}

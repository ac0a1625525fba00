//! Plain data types a glTF 2.0 import/export plugin attaches to the
//! entities of a loaded file, and the loader/saver settings.
//!
//! The scene-graph traversal itself belongs to the host engine; these types
//! only carry the file-level facts (asset metadata, extension lists, indices
//! into the root-level arrays) as plain values.

use vstd::prelude::*;
use core::marker::PhantomData;

verus! {

/// Marker trait for components that mirror a piece of glTF document state.
pub trait GltfComponent {

}

/// Marks the root entity of a loaded glTF document.
pub struct GltfRoot;

impl GltfComponent for GltfRoot {

}

/// The extension names the document uses.
pub struct ExtensionsUsed {
    pub extensions: Vec<String>,
}

impl GltfComponent for ExtensionsUsed {

}

/// The extension names the document cannot be rendered without.
pub struct ExtensionsRequired {
    pub extensions: Vec<String>,
}

impl GltfComponent for ExtensionsRequired {

}

/// The document's copyright notice.
pub struct Copyright {
    pub copyright: String,
}

impl GltfComponent for Copyright {

}

/// The tool that generated the document.
pub struct Generator {
    pub generator: String,
}

impl GltfComponent for Generator {

}

/// The glTF version the document targets.
pub struct Version {
    pub version: String,
}

impl GltfComponent for Version {

}

/// The minimum glTF version needed to load the document.
pub struct MinVersion {
    pub min_version: String,
}

impl GltfComponent for MinVersion {

}

/// The index of the scene shown when the document is first displayed.
pub struct DefaultScene {
    pub default_scene: u32,
}

impl GltfComponent for DefaultScene {

}

/// Marks an entity standing for one node of the document.
pub struct GltfNode;

impl GltfComponent for GltfNode {

}

/// Marks an entity as the `index`-th element of the document's root-level
/// array of kind `T` (mesh, material, ...).
#[verifier::reject_recursive_types(T)]
pub struct Is<T> {
    pub index: u32,
    pub marker: PhantomData<T>,
}

impl<T> GltfComponent for Is<T> {

}

impl<T> Is<T> {
    /// Tags an entity with its root-level array index.
    pub fn new(index: u32) -> (s: Is<T>)
        ensures
            s.index == index,
    {
        Is { index, marker: PhantomData }
    }
}

/// Optional settings for processing a glTF file at load time. By default
/// every recognized content kind is loaded.
pub struct GltfLoaderSettings {
    /// Names of the asset extractors to run on the loaded document.
    pub gltf_asset_loaders: Vec<String>,
    /// Load mesh nodes and their materials.
    pub load_meshes: bool,
    /// Spawn cameras for glTF camera nodes.
    pub load_cameras: bool,
    /// Spawn lights for glTF light nodes.
    pub load_lights: bool,
}

impl Default for GltfLoaderSettings {
    /// Everything recognized is loaded; no extra extractors run.
    fn default() -> (d: Self)
        ensures
            d.gltf_asset_loaders@.len() == 0,
            d.load_meshes,
            d.load_cameras,
            d.load_lights,
    {
        GltfLoaderSettings {
            gltf_asset_loaders: Vec::new(),
            load_meshes: true,
            load_cameras: true,
            load_lights: true,
        }
    }
}

/// The on-disk flavour a glTF document is saved as.
#[derive(Clone, Copy, PartialEq, Eq, Structural, Debug)]
pub enum GltfFileType {
    JSON,
    Binary,
}

/// Optional settings for saving a glTF file.
pub struct GltfSaverSettings {
    /// Extensions to use when saving that cannot be detected automatically,
    /// such as compressors.
    pub manual_extensions: Vec<String>,
    /// Extras to save.
    pub manual_extras: Vec<String>,
    /// Fail the save if any extension is required.
    pub no_required_extensions: bool,
    /// Save everything into a single file, binary and image data inlined as
    /// base64, rather than into multiple files.
    pub single_file: bool,
    /// The on-disk flavour to produce.
    pub save_format: GltfFileType,
}

impl Default for GltfSaverSettings {
    /// A single JSON file with no manual extensions or extras, and required
    /// extensions allowed.
    fn default() -> (d: Self)
        ensures
            d.manual_extensions@.len() == 0,
            d.manual_extras@.len() == 0,
            !d.no_required_extensions,
            d.single_file,
            d.save_format == GltfFileType::JSON,
    {
        GltfSaverSettings {
            manual_extensions: Vec::new(),
            manual_extras: Vec::new(),
            no_required_extensions: false,
            single_file: true,
            save_format: GltfFileType::JSON,
        }
    }
}

} // verus!

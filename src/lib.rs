//! Turns the element tree of a Granny 3D document into meshes, materials and
//! scenes ready to be registered with a host asset system.
pub mod element;
pub mod error;
pub mod label;
pub mod loader;
pub mod material;
pub mod mesh;
pub mod scene;

pub use element::{resolve, Element, ElementValue};
pub use error::{ImportError, RequiredField};
pub use loader::{load_granny, GrannyLoader, ImportPlan, ModelPlan};
pub use material::{load_granny_material, settle_material, MaterialDraft, MaterialRequest};
pub use mesh::{build_mesh, extract_vertex, MeshDraft, Vertex};
pub use scene::{assemble_scene, Granny, SceneDraft, SceneNode};

use vstd::prelude::*;

verus! {

/// Registers the Granny loader and asset with a host application.
#[derive(Debug, Clone, Copy, Default)]
pub struct GrannyPlugin;

impl GrannyPlugin {
    /// The plugin is ready as soon as it is added.
    pub fn ready(&self) -> (r: bool)
        ensures
            r,
    {
        true
    }

    /// At most one instance of the plugin may be added.
    pub fn is_unique(&self) -> (r: bool)
        ensures
            r,
    {
        true
    }
}

} // verus!

use vstd::prelude::*;

use crate::material::{settled, MaterialDraft, MaterialRequest};

verus! {

/// A child of a scene's root node: one mesh, and the material it is drawn
/// with, or `None` for the host's default material.
#[derive(Debug, PartialEq, Eq)]
pub struct SceneNode {
    pub mesh: String,
    pub material: Option<String>,
}

/// A scene: a root node with identity transform and its children.
#[derive(Debug, PartialEq, Eq)]
pub struct SceneDraft {
    pub label: String,
    pub children: Vec<SceneNode>,
}

/// The imported asset: the scenes in model order, and the first of them as
/// the default scene. Scenes are named by the labels they are registered under.
#[derive(Debug, PartialEq, Eq)]
pub struct Granny {
    pub default_scene: Option<String>,
    pub scenes: Vec<String>,
}

impl Granny {
    /// The asset made of `scenes`, in order; the first is the default scene.
    pub fn from_scenes(scenes: Vec<String>) -> (r: Granny)
        ensures
            r.scenes == scenes,
            scenes@.len() > 0 ==> r.default_scene == Some(scenes@[0]),
            scenes@.len() == 0 ==> r.default_scene is None,
    {
        let default_scene = if scenes.len() > 0 {
            Some(scenes[0].clone())
        } else {
            None
        };
        Granny { default_scene, scenes }
    }
}

/// The child node that draws `mesh` with `material`.
pub open spec fn node_for(mesh: String, material: Option<MaterialDraft>) -> SceneNode {
    SceneNode {
        mesh,
        material: match material {
            Some(m) => Some(m.label),
            None => None,
        },
    }
}

/// Builds the scene of one model: its root holds one child per built mesh.
pub fn assemble_scene(label: String, mesh_label: String, material: Option<MaterialDraft>) -> (r: SceneDraft)
    ensures
        r.label == label,
        r.children@ == seq![node_for(mesh_label, material)],
        r.children@.len() == 1,
        r.children@[0].mesh == mesh_label,
        r.children@[0].material == match material {
            Some(m) => Some(m.label),
            None => None::<String>,
        },
{
    let material_label = match material {
        Some(m) => Some(m.label),
        None => None,
    };
    let mut children: Vec<SceneNode> = Vec::new();
    children.push(SceneNode { mesh: mesh_label, material: material_label });
    SceneDraft { label, children }
}

/// A texture that cannot be fetched drops its material, and the model's
/// mesh is still drawn, with the default material.
pub proof fn lemma_unfetched_texture_keeps_mesh(request: MaterialRequest, mesh_label: String)
    requires
        request.texture is Some,
    ensures
        settled(request, false) is None,
        node_for(mesh_label, settled(request, false)) == (SceneNode { mesh: mesh_label, material: None }),
{
}

} // verus!

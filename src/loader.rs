use vstd::prelude::*;

use crate::element::{path_view, resolve, resolve_path, Element, ElementValue};
use crate::error::{ImportError, RequiredField};
use crate::label::{decimal, numbered_label};
use crate::material::{diffuse_texture, load_granny_material, opt_view, MaterialRequest};
use crate::mesh::{build_mesh, is_draft_of, mesh_error, vertex_of, vertices_of, MeshDraft};
use crate::scene::Granny;

verus! {

/// What one model of the document turns into.
#[derive(Debug, PartialEq, Eq)]
pub struct ModelPlan {
    /// Label of the model's scene: its name, or `Scene{i}`.
    pub scene_label: String,
    /// Label of the model's mesh, `Mesh{i}`.
    pub mesh_label: String,
    pub mesh: MeshDraft,
    /// The material the mesh asks for, if its bindings name one.
    pub material: Option<MaterialRequest>,
}

/// Everything an import derives from a document, in model order.
#[derive(Debug, PartialEq, Eq)]
pub struct ImportPlan {
    pub models: Vec<ModelPlan>,
    pub granny: Granny,
}

/// Loads documents with the `gr2` extension.
#[derive(Debug, Clone, Copy, Default)]
pub struct GrannyLoader;

/// The models listed at the top of a document.
pub open spec fn models_of(document: Seq<Element>) -> Option<Seq<Vec<Element>>> {
    match resolve_path(document, seq!["Models"@]) {
        Some(ElementValue::ArrayOfReferences(ms)) => Some(ms@),
        _ => None,
    }
}

pub open spec fn mesh_binding_path() -> Seq<Seq<char>> {
    seq!["MeshBindings"@, "Mesh"@]
}

pub open spec fn material_binding_path() -> Seq<Seq<char>> {
    seq!["MaterialBindings"@, "Material"@]
}

/// The mesh element a model binds, if it binds one.
pub open spec fn mesh_of(model: Seq<Element>) -> Option<Seq<Element>> {
    match resolve_path(model, mesh_binding_path()) {
        Some(ElementValue::Reference(mesh)) => Some(mesh@),
        _ => None,
    }
}

/// The material element a mesh binds, if it binds one.
pub open spec fn material_of(mesh: Seq<Element>) -> Option<Seq<Element>> {
    match resolve_path(mesh, material_binding_path()) {
        Some(ElementValue::Reference(m)) => Some(m@),
        _ => None,
    }
}

/// Why one model cannot be imported, if it cannot.
pub open spec fn model_error(model: Seq<Element>) -> Option<RequiredField> {
    match mesh_of(model) {
        Some(mesh) => mesh_error(mesh),
        None => Some(RequiredField::MeshBindings),
    }
}

/// The failure of the first model at or after `k` that has one.
pub open spec fn models_error_from(ms: Seq<Vec<Element>>, k: int) -> Option<RequiredField>
    decreases ms.len() - k,
{
    if k < 0 || k >= ms.len() {
        None
    } else {
        match model_error(ms[k]@) {
            Some(e) => Some(e),
            None => models_error_from(ms, k + 1),
        }
    }
}

/// Why a document cannot be imported, if it cannot.
pub open spec fn import_error(document: Seq<Element>) -> Option<ImportError> {
    match models_of(document) {
        None => Some(ImportError::MissingRequiredField(RequiredField::Models)),
        Some(ms) => match models_error_from(ms, 0) {
            Some(e) => Some(ImportError::MissingRequiredField(e)),
            None => None,
        },
    }
}

/// The label of the `k`-th model's scene: its non-empty `Name`, else `Scene{k}`.
pub open spec fn scene_label_of(model: Seq<Element>, k: nat) -> Seq<char> {
    match resolve_path(model, seq!["Name"@]) {
        Some(ElementValue::String(s)) => if s@.len() > 0 {
            s@
        } else {
            "Scene"@ + decimal(k)
        },
        _ => "Scene"@ + decimal(k),
    }
}

/// `p` is what the `k`-th model, which binds `mesh`, turns into.
pub open spec fn is_plan_of(model: Seq<Element>, mesh: Seq<Element>, k: nat, p: ModelPlan) -> bool {
    &&& p.scene_label@ == scene_label_of(model, k)
    &&& p.mesh_label@ == "Mesh"@ + decimal(k)
    &&& is_draft_of(mesh, p.mesh)
    &&& match (material_of(mesh), p.material) {
        (None, None) => true,
        (Some(m), Some(req)) => req.label@ == "Material"@ + decimal(k) && opt_view(req.texture)
            == diffuse_texture(m),
        _ => false,
    }
}

/// `p` is what the `k`-th model turns into.
pub open spec fn is_model_plan(model: Seq<Element>, k: nat, p: ModelPlan) -> bool {
    match mesh_of(model) {
        Some(mesh) => is_plan_of(model, mesh, k, p),
        None => false,
    }
}

/// `plan` is what the document imports into: one model plan and one scene
/// per model, in document order.
pub open spec fn is_import_of(document: Seq<Element>, plan: ImportPlan) -> bool {
    &&& import_error(document) is None
    &&& models_of(document) matches Some(ms)
    &&& plan.models@.len() == ms.len()
    &&& forall|k: int| 0 <= k < ms.len() ==> is_model_plan(ms[k]@, k as nat, #[trigger] plan.models@[k])
    &&& plan.granny.scenes@.len() == ms.len()
    &&& forall|k: int| 0 <= k < ms.len() ==> (#[trigger] plan.granny.scenes@[k])
        == plan.models@[k].scene_label
    &&& plan.granny.default_scene == if ms.len() > 0 {
        Some(plan.granny.scenes@[0])
    } else {
        None
    }
}

proof fn lemma_models_error_from(ms: Seq<Vec<Element>>, k: int)
    requires
        0 <= k <= ms.len(),
    ensures
        models_error_from(ms, k) is None <==> forall|j: int| k <= j < ms.len() ==> (#[trigger] model_error(ms[j]@)) is None,
    decreases ms.len() - k,
{
    if k < ms.len() {
        lemma_models_error_from(ms, k + 1);
    }
}

proof fn lemma_vertices_error_from(vs: Seq<Vec<Element>>, k: int)
    requires
        0 <= k <= vs.len(),
    ensures
        crate::mesh::vertices_error_from(vs, k) is None <==> forall|j: int| k <= j < vs.len() ==> (#[trigger] vertex_of(vs[j]@)) is Ok,
    decreases vs.len() - k,
{
    if k < vs.len() {
        lemma_vertices_error_from(vs, k + 1);
    }
}

/// The `j`-th vertex of the mesh that `model` binds has no usable position
/// or normal.
pub open spec fn lacks_vertex_field(model: Seq<Element>, j: int) -> bool {
    match mesh_of(model) {
        Some(mesh) => 0 <= j < vertices_of(mesh).len() && vertex_of(vertices_of(mesh)[j]@) is Err,
        None => false,
    }
}

/// A vertex record without a usable position or normal, in any mesh of any
/// model, fails the whole import with a missing required field, however
/// well-formed the other vertices are.
pub proof fn lemma_bad_vertex_fails_import(document: Seq<Element>, k: int, j: int)
    requires
        models_of(document) matches Some(ms) && (0 <= k < ms.len() && lacks_vertex_field(ms[k]@, j)),
    ensures
        import_error(document) matches Some(ImportError::MissingRequiredField(_)),
{
    let ms = models_of(document).unwrap();
    let mesh = mesh_of(ms[k]@).unwrap();
    let vs = vertices_of(mesh);
    lemma_vertices_error_from(vs, 0);
    assert(crate::mesh::vertices_error_from(vs, 0) is Some);
    assert(mesh_error(mesh) is Some);
    assert(model_error(ms[k]@) is Some);
    lemma_models_error_from(ms, 0);
}

fn scene_label(model: &Vec<Element>, k: usize) -> (r: String)
    ensures
        r@ == scene_label_of(model@, k as nat),
{
    let name_path: [&str; 1] = ["Name"];
    assert(path_view(&name_path) =~= seq!["Name"@]);
    if let Some(ElementValue::String(s)) = resolve(model, &name_path) {
        if !s.as_str().is_empty() {
            return s.clone();
        }
    }
    numbered_label("Scene", k)
}

/// Turns a document's element tree into the meshes, material requests and
/// scenes it describes, one model at a time in document order. The first
/// model that cannot be imported fails the whole import.
pub fn load_granny(document: &Vec<Element>) -> (r: Result<ImportPlan, ImportError>)
    ensures
        match r {
            Ok(plan) => is_import_of(document@, plan),
            Err(e) => import_error(document@) == Some(e),
        },
        // one scene per model, the first being the default one
        r matches Ok(plan) ==> models_of(document@) matches Some(ms) && plan.granny.scenes@.len()
            == ms.len() && (ms.len() > 0 ==> plan.granny.default_scene == Some(plan.granny.scenes@[0]))
            && (ms.len() == 0 ==> plan.granny.default_scene is None),
        // every failure is a missing required field
        r matches Err(e) ==> e matches ImportError::MissingRequiredField(_),
        // a vertex without position or normal fails the import
        (models_of(document@) matches Some(ms) && exists|k: int, j: int|
            0 <= k < ms.len() && #[trigger] lacks_vertex_field(ms[k]@, j)) ==> r is Err,
        // a missing model list fails the import
        models_of(document@) is None ==> r == Err::<ImportPlan, ImportError>(
            ImportError::MissingRequiredField(RequiredField::Models),
        ),
        // each mesh has one position and one normal per vertex
        r matches Ok(plan) ==> models_of(document@) matches Some(ms) && forall|k: int|
            0 <= k < ms.len() ==> (mesh_of(ms[k]@) matches Some(mesh) && (
            #[trigger] plan.models@[k]).mesh.positions@.len() == vertices_of(mesh).len()
            && plan.models@[k].mesh.normals@.len() == vertices_of(mesh).len()),
{
    let models_path: [&str; 1] = ["Models"];
    let mesh_path: [&str; 2] = ["MeshBindings", "Mesh"];
    let material_path: [&str; 2] = ["MaterialBindings", "Material"];
    assert(path_view(&models_path) =~= seq!["Models"@]);
    assert(path_view(&mesh_path) =~= mesh_binding_path());
    assert(path_view(&material_path) =~= material_binding_path());
    let ms = match resolve(document, &models_path) {
        Some(ElementValue::ArrayOfReferences(ms)) => ms,
        _ => return Err(ImportError::MissingRequiredField(RequiredField::Models)),
    };
    let mut models: Vec<ModelPlan> = Vec::new();
    let mut scenes: Vec<String> = Vec::new();
    let mut k: usize = 0;
    while k < ms.len()
        invariant
            k <= ms@.len(),
            models_of(document@) == Some(ms@),
            path_view(&mesh_path) == mesh_binding_path(),
            path_view(&material_path) == material_binding_path(),
            models@.len() == k,
            scenes@.len() == k,
            forall|j: int| 0 <= j < k ==> is_model_plan(ms@[j]@, j as nat, #[trigger] models@[j]),
            forall|j: int| 0 <= j < k ==> (#[trigger] scenes@[j]) == models@[j].scene_label,
            models_error_from(ms@, 0) == models_error_from(ms@, k as int),
        decreases ms@.len() - k,
    {
        let model = &ms[k];
        let mesh = match resolve(model, &mesh_path) {
            Some(ElementValue::Reference(mesh)) => mesh,
            _ => return Err(ImportError::MissingRequiredField(RequiredField::MeshBindings)),
        };
        let draft = match build_mesh(mesh) {
            Ok(d) => d,
            Err(e) => return Err(ImportError::MissingRequiredField(e)),
        };
        let material = match resolve(mesh, &material_path) {
            Some(ElementValue::Reference(m)) => Some(load_granny_material(m, k)),
            _ => None,
        };
        let scene_label = scene_label(model, k);
        let plan = ModelPlan {
            scene_label: scene_label.clone(),
            mesh_label: numbered_label("Mesh", k),
            mesh: draft,
            material,
        };
        assert(mesh_of(ms@[k as int]@) == Some(mesh@));
        assert(plan.scene_label@ == scene_label_of(model@, k as nat));
        assert(is_draft_of(mesh@, plan.mesh));
        assert(is_model_plan(ms@[k as int]@, k as nat, plan));
        models.push(plan);
        scenes.push(scene_label);
        k = k + 1;
    }
    proof {
        if exists|a: int, b: int| 0 <= a < ms@.len() && #[trigger] lacks_vertex_field(ms@[a]@, b) {
            let (a, b) = choose|a: int, b: int| 0 <= a < ms@.len() && #[trigger] lacks_vertex_field(ms@[a]@, b);
            lemma_bad_vertex_fails_import(document@, a, b);
        }
    }
    let granny = Granny::from_scenes(scenes);
    Ok(ImportPlan { models, granny })
}

impl GrannyLoader {
    /// The file extensions this loader reads.
    pub fn extensions(&self) -> (r: Vec<&'static str>)
        ensures
            r@.len() == 1,
            r@[0]@ == "gr2"@,
    {
        vec!["gr2"]
    }

    /// Imports a parsed document; see `load_granny`.
    pub fn load(&self, document: &Vec<Element>) -> (r: Result<ImportPlan, ImportError>)
        ensures
            match r {
                Ok(plan) => is_import_of(document@, plan),
                Err(e) => import_error(document@) == Some(e),
            },
            // one scene per model, the first being the default one
            r matches Ok(plan) ==> models_of(document@) matches Some(ms) && plan.granny.scenes@.len()
                == ms.len() && (ms.len() > 0 ==> plan.granny.default_scene == Some(plan.granny.scenes@[0]))
                && (ms.len() == 0 ==> plan.granny.default_scene is None),
            // every failure is a missing required field
            r matches Err(e) ==> e matches ImportError::MissingRequiredField(_),
            // a vertex without position or normal fails the import
            (models_of(document@) matches Some(ms) && exists|k: int, j: int|
                0 <= k < ms.len() && #[trigger] lacks_vertex_field(ms[k]@, j)) ==> r is Err,
            // a missing model list fails the import
            models_of(document@) is None ==> r == Err::<ImportPlan, ImportError>(
                ImportError::MissingRequiredField(RequiredField::Models),
            ),
            // each mesh has one position and one normal per vertex
            r matches Ok(plan) ==> models_of(document@) matches Some(ms) && forall|k: int|
                0 <= k < ms.len() ==> (mesh_of(ms[k]@) matches Some(mesh) && (
                #[trigger] plan.models@[k]).mesh.positions@.len() == vertices_of(mesh).len()
                && plan.models@[k].mesh.normals@.len() == vertices_of(mesh).len()),
    {
        load_granny(document)
    }
}

} // verus!

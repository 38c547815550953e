use opengr2_bevy::{
    assemble_scene, build_mesh, extract_vertex, load_granny, load_granny_material, resolve,
    settle_material, Element, ElementValue, GrannyLoader, GrannyPlugin, ImportError,
    MaterialRequest, RequiredField,
};

fn el(name: &str, value: ElementValue) -> Element {
    Element { name: name.to_string(), value }
}

fn floats(values: &[f32]) -> ElementValue {
    ElementValue::Array(values.iter().map(|v| ElementValue::F32(v.to_bits())).collect())
}

fn text(s: &str) -> ElementValue {
    ElementValue::String(s.to_string())
}

fn vertex(p: [f32; 3], n: [f32; 3], uv: Option<[f32; 2]>) -> Vec<Element> {
    let mut v = vec![el("Position", floats(&p)), el("Normal", floats(&n))];
    if let Some(uv) = uv {
        v.push(el("TextureCoordinates0", floats(&uv)));
    }
    v
}

fn mesh(vertices: Vec<Vec<Element>>, indices: &[i32], material: Option<Vec<Element>>) -> Vec<Element> {
    let mut m = vec![
        el("PrimaryVertexData", ElementValue::Reference(vec![el("Vertices", ElementValue::ArrayOfReferences(vertices))])),
        el(
            "PrimaryTopology",
            ElementValue::Reference(vec![el(
                "Indices",
                ElementValue::Reference(indices.iter().map(|i| el("Int32", ElementValue::I32(*i))).collect()),
            )]),
        ),
    ];
    if let Some(material) = material {
        m.push(el("MaterialBindings", ElementValue::Reference(vec![el("Material", ElementValue::Reference(material))])));
    }
    m
}

fn model(name: Option<&str>, mesh: Vec<Element>) -> Vec<Element> {
    let mut m = Vec::new();
    if let Some(name) = name {
        m.push(el("Name", text(name)));
    }
    m.push(el("MeshBindings", ElementValue::Reference(vec![el("Mesh", ElementValue::Reference(mesh))])));
    m
}

fn document(models: Vec<Vec<Element>>) -> Vec<Element> {
    vec![el("ArtToolInfo", text("tool")), el("Models", ElementValue::ArrayOfReferences(models))]
}

fn quad_vertices() -> Vec<Vec<Element>> {
    vec![
        vertex([0.0, 0.0, 0.0], [0.0, 0.0, 1.0], Some([0.0, 0.0])),
        vertex([1.0, 0.0, 0.0], [0.0, 0.0, 1.0], Some([1.0, 0.0])),
        vertex([1.0, 1.0, 0.0], [0.0, 0.0, 1.0], Some([1.0, 1.0])),
        vertex([0.0, 1.0, 0.0], [0.0, 0.0, 1.0], Some([0.0, 1.0])),
    ]
}

fn diffuse_material(usage: &str, file: &str) -> Vec<Element> {
    vec![el(
        "Maps",
        ElementValue::Reference(vec![
            el("Usage", text(usage)),
            el(
                "Map",
                ElementValue::Reference(vec![el("Texture", ElementValue::Reference(vec![el("FromFileName", text(file))]))]),
            ),
        ]),
    )]
}

fn bits3(v: [f32; 3]) -> (u32, u32, u32) {
    (v[0].to_bits(), v[1].to_bits(), v[2].to_bits())
}

#[test]
fn box_scene_without_material() {
    let doc = document(vec![model(Some("Box"), mesh(quad_vertices(), &[0, 1, 2, 0, 2, 3], None))]);
    let plan = load_granny(&doc).unwrap();
    assert_eq!(plan.granny.scenes, vec!["Box".to_string()]);
    assert_eq!(plan.granny.default_scene, Some("Box".to_string()));
    assert_eq!(plan.models.len(), 1);
    let m = &plan.models[0];
    assert_eq!(m.mesh_label, "Mesh0");
    assert_eq!(m.scene_label, "Box");
    assert_eq!(m.mesh.positions.len(), 4);
    assert_eq!(m.mesh.normals.len(), 4);
    assert_eq!(m.mesh.uvs.len(), 4);
    assert_eq!(m.mesh.positions[2], bits3([1.0, 1.0, 0.0]));
    assert_eq!(m.mesh.normals[3], bits3([0.0, 0.0, 1.0]));
    assert_eq!(m.mesh.uvs[1], (1.0f32.to_bits(), 0.0f32.to_bits()));
    assert_eq!(m.mesh.indices, vec![0, 1, 2, 0, 2, 3]);
    assert!(m.material.is_none());
    assert!(!m.mesh.lossy);
    let scene = assemble_scene(m.scene_label.clone(), m.mesh_label.clone(), None);
    assert_eq!(scene.label, "Box");
    assert_eq!(scene.children.len(), 1);
    assert_eq!(scene.children[0].mesh, "Mesh0");
    assert_eq!(scene.children[0].material, None);
}

#[test]
fn unnamed_model_gets_numbered_scene() {
    let doc = document(vec![model(None, mesh(quad_vertices(), &[0, 1, 2, 0, 2, 3], None))]);
    let plan = load_granny(&doc).unwrap();
    assert_eq!(plan.granny.scenes, vec!["Scene0".to_string()]);
    assert_eq!(plan.granny.default_scene, Some("Scene0".to_string()));
}

#[test]
fn empty_name_gets_numbered_scene() {
    let doc = document(vec![
        model(Some("A"), mesh(quad_vertices(), &[0, 1, 2], None)),
        model(Some(""), mesh(quad_vertices(), &[0, 1, 2], None)),
    ]);
    let plan = load_granny(&doc).unwrap();
    assert_eq!(plan.granny.scenes, vec!["A".to_string(), "Scene1".to_string()]);
    assert_eq!(plan.models[1].mesh_label, "Mesh1");
}

#[test]
fn labels_use_all_decimal_digits() {
    let models: Vec<Vec<Element>> = (0..12).map(|_| model(None, mesh(quad_vertices(), &[0, 1, 2], None))).collect();
    let plan = load_granny(&document(models)).unwrap();
    assert_eq!(plan.granny.scenes.len(), 12);
    assert_eq!(plan.granny.scenes[10], "Scene10");
    assert_eq!(plan.models[11].mesh_label, "Mesh11");
}

#[test]
fn diffuse_texture_is_requested_and_referenced() {
    let material = diffuse_material("Diffuse Color", "tex.png");
    let doc = document(vec![model(Some("Box"), mesh(quad_vertices(), &[0, 1, 2, 0, 2, 3], Some(material)))]);
    let plan = load_granny(&doc).unwrap();
    let m = &plan.models[0];
    let request = m.material.as_ref().unwrap();
    assert_eq!(request.label, "Material0");
    assert_eq!(request.texture, Some("tex.png".to_string()));
    let draft = settle_material(
        MaterialRequest { label: request.label.clone(), texture: request.texture.clone() },
        true,
    )
    .unwrap();
    assert_eq!(draft.label, "Material0");
    assert_eq!(draft.texture, Some("tex.png".to_string()));
    let scene = assemble_scene(m.scene_label.clone(), m.mesh_label.clone(), Some(draft));
    assert_eq!(scene.children[0].material, Some("Material0".to_string()));
}

#[test]
fn models_count_matches_scenes() {
    let doc = document(vec![
        model(Some("One"), mesh(quad_vertices(), &[0, 1, 2], None)),
        model(Some("Two"), mesh(quad_vertices(), &[1, 2, 3], None)),
        model(None, mesh(quad_vertices(), &[2, 3, 0], None)),
    ]);
    let plan = load_granny(&doc).unwrap();
    assert_eq!(plan.granny.scenes, vec!["One".to_string(), "Two".to_string(), "Scene2".to_string()]);
    assert_eq!(plan.granny.default_scene, Some(plan.granny.scenes[0].clone()));
    assert_eq!(plan.models.len(), 3);
}

#[test]
fn empty_model_list_has_no_default_scene() {
    let plan = load_granny(&document(vec![])).unwrap();
    assert!(plan.granny.scenes.is_empty());
    assert_eq!(plan.granny.default_scene, None);
    assert!(plan.models.is_empty());
}

#[test]
fn missing_models_fails() {
    let doc = vec![el("ArtToolInfo", text("tool"))];
    assert_eq!(load_granny(&doc), Err(ImportError::MissingRequiredField(RequiredField::Models)));
    let wrong_shape = vec![el("Models", text("none"))];
    assert_eq!(load_granny(&wrong_shape), Err(ImportError::MissingRequiredField(RequiredField::Models)));
}

#[test]
fn vertex_without_position_fails() {
    let mut vs = quad_vertices();
    vs.push(vec![el("Normal", floats(&[0.0, 1.0, 0.0]))]);
    let doc = document(vec![model(Some("Box"), mesh(vs, &[0, 1, 2], None))]);
    assert_eq!(load_granny(&doc), Err(ImportError::MissingRequiredField(RequiredField::Position)));
}

#[test]
fn vertex_without_normal_fails() {
    let mut vs = quad_vertices();
    vs.insert(0, vec![el("Position", floats(&[0.0, 1.0, 0.0]))]);
    let doc = document(vec![model(Some("Box"), mesh(vs, &[0, 1, 2], None))]);
    assert_eq!(load_granny(&doc), Err(ImportError::MissingRequiredField(RequiredField::Normal)));
}

#[test]
fn bad_vertex_in_later_model_fails_whole_import() {
    let mut vs = quad_vertices();
    vs[2] = vec![el("Position", floats(&[0.0, 1.0])), el("Normal", floats(&[0.0, 1.0, 0.0]))];
    let doc = document(vec![
        model(Some("Good"), mesh(quad_vertices(), &[0, 1, 2], None)),
        model(Some("Bad"), mesh(vs, &[0, 1, 2], None)),
    ]);
    assert_eq!(load_granny(&doc), Err(ImportError::MissingRequiredField(RequiredField::Position)));
}

#[test]
fn missing_mesh_binding_fails() {
    let doc = document(vec![
        model(Some("Good"), mesh(quad_vertices(), &[0, 1, 2], None)),
        vec![el("Name", text("Empty"))],
    ]);
    assert_eq!(load_granny(&doc), Err(ImportError::MissingRequiredField(RequiredField::MeshBindings)));
}

#[test]
fn missing_vertices_fails() {
    let m = vec![el("PrimaryTopology", ElementValue::Reference(vec![el("Indices", ElementValue::Reference(vec![]))]))];
    assert_eq!(build_mesh(&m), Err(RequiredField::Vertices));
    let doc = document(vec![model(None, m)]);
    assert_eq!(load_granny(&doc), Err(ImportError::MissingRequiredField(RequiredField::Vertices)));
}

#[test]
fn missing_indices_fails() {
    let mut m = mesh(quad_vertices(), &[0, 1, 2], None);
    m.remove(1);
    assert_eq!(build_mesh(&m), Err(RequiredField::Indices));
}

#[test]
fn buffers_have_one_entry_per_vertex() {
    let mut vs = quad_vertices();
    vs.push(vertex([2.0, 2.0, 2.0], [1.0, 0.0, 0.0], Some([0.5, 0.5])));
    let d = build_mesh(&mesh(vs, &[0, 1, 2, 2, 3, 4], None)).unwrap();
    assert_eq!(d.positions.len(), 5);
    assert_eq!(d.normals.len(), 5);
    assert_eq!(d.positions[4], bits3([2.0, 2.0, 2.0]));
}

#[test]
fn vertices_without_uv_contribute_none() {
    let vs = vec![
        vertex([0.0, 0.0, 0.0], [0.0, 0.0, 1.0], None),
        vertex([1.0, 0.0, 0.0], [0.0, 0.0, 1.0], Some([0.25, 0.75])),
        vec![
            el("Position", floats(&[1.0, 1.0, 0.0])),
            el("Normal", floats(&[0.0, 0.0, 1.0])),
            el("TextureCoordinates0", floats(&[1.0, 1.0, 1.0])),
        ],
    ];
    let d = build_mesh(&mesh(vs, &[0, 1, 2], None)).unwrap();
    assert_eq!(d.positions.len(), 3);
    assert_eq!(d.uvs, vec![(0.25f32.to_bits(), 0.75f32.to_bits())]);
}

#[test]
fn non_float_components_become_zero() {
    let v = vec![
        el("Position", ElementValue::Array(vec![ElementValue::F32(1.5f32.to_bits()), ElementValue::I32(7), text("x")])),
        el("Normal", floats(&[0.0, -1.0, 0.0])),
    ];
    let r = extract_vertex(&v).unwrap();
    assert_eq!(r.position, (1.5f32.to_bits(), 0, 0));
    assert_eq!(r.normal, bits3([0.0, -1.0, 0.0]));
    assert_eq!(r.uv, None);
    assert!(r.lossy);
    let clean = vertex([1.0, 2.0, 3.0], [0.0, 0.0, 1.0], Some([0.5, 0.5]));
    assert!(!extract_vertex(&clean).unwrap().lossy);
}

#[test]
fn coerced_vertex_component_marks_mesh_lossy() {
    let mut vs = quad_vertices();
    vs[3] = vec![
        el("Position", floats(&[0.0, 1.0, 0.0])),
        el("Normal", floats(&[0.0, 0.0, 1.0])),
        el("TextureCoordinates0", ElementValue::Array(vec![ElementValue::F32(0), ElementValue::I32(1)])),
    ];
    let d = build_mesh(&mesh(vs, &[0, 1, 2], None)).unwrap();
    assert!(d.lossy);
    assert_eq!(d.uvs[3], (0, 0));
}

#[test]
fn indices_are_reinterpreted_as_unsigned() {
    let mut m = mesh(quad_vertices(), &[0, -1, 3], None);
    if let ElementValue::Reference(top) = &mut m[1].value {
        if let ElementValue::Reference(ix) = &mut top[0].value {
            ix.push(el("Int32", floats(&[1.0])));
        }
    }
    let d = build_mesh(&m).unwrap();
    assert_eq!(d.indices, vec![0, u32::MAX, 3, 0]);
    assert!(d.lossy);
}

#[test]
fn other_usage_gives_no_texture() {
    let r = load_granny_material(&diffuse_material("Normal Map", "normal.png"), 3);
    assert_eq!(r.label, "Material3");
    assert_eq!(r.texture, None);
    let d = settle_material(r, true).unwrap();
    assert_eq!(d.texture, None);
    assert_eq!(d.label, "Material3");
}

#[test]
fn material_without_maps_has_no_texture() {
    let r = load_granny_material(&vec![el("Name", text("plain"))], 0);
    assert_eq!(r.label, "Material0");
    assert_eq!(r.texture, None);
}

#[test]
fn unfetched_texture_falls_back_to_default_material() {
    let request = load_granny_material(&diffuse_material("Diffuse Color", "missing.png"), 0);
    assert_eq!(request.texture, Some("missing.png".to_string()));
    let settled = settle_material(request, false);
    assert_eq!(settled, None);
    let scene = assemble_scene("Box".to_string(), "Mesh0".to_string(), settled);
    assert_eq!(scene.children.len(), 1);
    assert_eq!(scene.children[0].mesh, "Mesh0");
    assert_eq!(scene.children[0].material, None);
}

#[test]
fn resolve_follows_references_only() {
    let doc = vec![
        el("A", ElementValue::Reference(vec![el("B", ElementValue::I32(5))])),
        el("A", ElementValue::Reference(vec![el("B", ElementValue::I32(6))])),
        el("C", ElementValue::ArrayOfReferences(vec![vec![el("B", ElementValue::I32(7))]])),
    ];
    assert_eq!(resolve(&doc, &["A", "B"]), Some(&ElementValue::I32(5)));
    assert_eq!(resolve(&doc, &["C", "B"]), None);
    assert_eq!(resolve(&doc, &["A", "X"]), None);
    assert_eq!(resolve(&doc, &[]), None);
    assert!(matches!(resolve(&doc, &["C"]), Some(ElementValue::ArrayOfReferences(_))));
}

#[test]
fn error_messages_name_the_field() {
    assert_eq!(RequiredField::Models.message(), "Missing Models");
    assert_eq!(RequiredField::Position.message(), "No position in vertex");
    assert_eq!(RequiredField::Normal.message(), "No normal in vertex");
    assert_eq!(RequiredField::MeshBindings.message(), "Missing MeshBindings");
    assert_eq!(RequiredField::Vertices.message(), "Missing Vertices");
    assert_eq!(RequiredField::Indices.message(), "Missing Indices");
}

#[test]
fn loader_and_plugin() {
    let loader = GrannyLoader;
    assert_eq!(loader.extensions(), vec!["gr2"]);
    let doc = document(vec![model(Some("Box"), mesh(quad_vertices(), &[0, 1, 2], None))]);
    assert_eq!(loader.load(&doc), load_granny(&doc));
    assert!(GrannyPlugin.ready());
    assert!(GrannyPlugin.is_unique());
}

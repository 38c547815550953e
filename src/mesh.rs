use vstd::prelude::*;

use crate::element::{resolve, resolve_path, Element, ElementValue};
use crate::error::RequiredField;

verus! {

/// Three float components, each as its IEEE-754 bit pattern.
pub type Triple = (u32, u32, u32);

/// Two float components, each as its IEEE-754 bit pattern.
pub type Pair = (u32, u32);

/// The attributes read from one vertex record.
#[derive(Debug, Clone, Copy, PartialEq, Eq)]
pub struct Vertex {
    pub position: Triple,
    pub normal: Triple,
    pub uv: Option<Pair>,
    /// Some component of the vertex was not a float and was read as `0.0`.
    pub lossy: bool,
}

/// Parallel vertex buffers and a flat triangle-list index buffer.
#[derive(Debug, PartialEq, Eq)]
pub struct MeshDraft {
    pub positions: Vec<Triple>,
    pub normals: Vec<Triple>,
    pub uvs: Vec<Pair>,
    pub indices: Vec<u32>,
    /// Some vertex component or index had the wrong type and was read as zero.
    pub lossy: bool,
}

/// A scalar array entry as float bits: anything but a float counts as `0.0`.
pub open spec fn scalar_bits(v: ElementValue) -> u32 {
    match v {
        ElementValue::F32(b) => b,
        _ => 0,
    }
}

/// An index entry: a signed integer reinterpreted as unsigned, anything else `0`.
pub open spec fn index_bits(v: ElementValue) -> u32 {
    match v {
        ElementValue::I32(x) => x as u32,
        _ => 0,
    }
}

pub open spec fn triple_field(vertex: Seq<Element>, name: Seq<char>) -> Option<Triple> {
    match resolve_path(vertex, seq![name]) {
        Some(ElementValue::Array(a)) => if a@.len() == 3 {
            Some((scalar_bits(a@[0]), scalar_bits(a@[1]), scalar_bits(a@[2])))
        } else {
            None
        },
        _ => None,
    }
}

/// The three-entry array named `name` has an entry that is not a float.
pub open spec fn triple_lossy(vertex: Seq<Element>, name: Seq<char>) -> bool {
    match resolve_path(vertex, seq![name]) {
        Some(ElementValue::Array(a)) => a@.len() == 3 && (!(a@[0] is F32) || !(a@[1] is F32) || !(a@[2] is F32)),
        _ => false,
    }
}

/// The two-entry array named `name` has an entry that is not a float.
pub open spec fn pair_lossy(vertex: Seq<Element>, name: Seq<char>) -> bool {
    match resolve_path(vertex, seq![name]) {
        Some(ElementValue::Array(a)) => a@.len() == 2 && (!(a@[0] is F32) || !(a@[1] is F32)),
        _ => false,
    }
}

pub open spec fn pair_field(vertex: Seq<Element>, name: Seq<char>) -> Option<Pair> {
    match resolve_path(vertex, seq![name]) {
        Some(ElementValue::Array(a)) => if a@.len() == 2 {
            Some((scalar_bits(a@[0]), scalar_bits(a@[1])))
        } else {
            None
        },
        _ => None,
    }
}

/// What one vertex record yields: position and normal are required, the
/// first texture coordinates are taken when they are a two-entry array.
pub open spec fn vertex_of(vertex: Seq<Element>) -> Result<Vertex, RequiredField> {
    match triple_field(vertex, "Position"@) {
        None => Err(RequiredField::Position),
        Some(p) => match triple_field(vertex, "Normal"@) {
            None => Err(RequiredField::Normal),
            Some(n) => Ok(
                Vertex {
                    position: p,
                    normal: n,
                    uv: pair_field(vertex, "TextureCoordinates0"@),
                    lossy: triple_lossy(vertex, "Position"@) || triple_lossy(vertex, "Normal"@)
                        || pair_lossy(vertex, "TextureCoordinates0"@),
                },
            ),
        },
    }
}

/// The failure of the first vertex at or after `k` that has one.
pub open spec fn vertices_error_from(vs: Seq<Vec<Element>>, k: int) -> Option<RequiredField>
    decreases vs.len() - k,
{
    if k < 0 || k >= vs.len() {
        None
    } else {
        match vertex_of(vs[k]@) {
            Err(e) => Some(e),
            Ok(_) => vertices_error_from(vs, k + 1),
        }
    }
}

/// Texture coordinates of the first `k` vertices, skipping those without.
pub open spec fn uvs_upto(vs: Seq<Vec<Element>>, k: int) -> Seq<Pair>
    decreases k,
{
    if k <= 0 {
        Seq::empty()
    } else {
        uvs_upto(vs, k - 1) + match vertex_of(vs[k - 1]@) {
            Ok(Vertex { uv: Some(u), .. }) => seq![u],
            _ => Seq::empty(),
        }
    }
}

pub open spec fn vertices_path() -> Seq<Seq<char>> {
    seq!["PrimaryVertexData"@, "Vertices"@]
}

pub open spec fn indices_path() -> Seq<Seq<char>> {
    seq!["PrimaryTopology"@, "Indices"@]
}

/// The vertex records of a mesh element, empty when it has none.
pub open spec fn vertices_of(mesh: Seq<Element>) -> Seq<Vec<Element>> {
    match resolve_path(mesh, vertices_path()) {
        Some(ElementValue::ArrayOfReferences(vs)) => vs@,
        _ => Seq::empty(),
    }
}

/// The index entries of a mesh element, empty when it has none.
pub open spec fn index_entries_of(mesh: Seq<Element>) -> Seq<Element> {
    match resolve_path(mesh, indices_path()) {
        Some(ElementValue::Reference(ix)) => ix@,
        _ => Seq::empty(),
    }
}

/// Why a mesh element cannot be built, if it cannot.
pub open spec fn mesh_error(mesh: Seq<Element>) -> Option<RequiredField> {
    match resolve_path(mesh, vertices_path()) {
        Some(ElementValue::ArrayOfReferences(vs)) => match vertices_error_from(vs@, 0) {
            Some(e) => Some(e),
            None => match resolve_path(mesh, indices_path()) {
                Some(ElementValue::Reference(_)) => None,
                _ => Some(RequiredField::Indices),
            },
        },
        _ => Some(RequiredField::Vertices),
    }
}

/// A readable vertex some of whose components were coerced.
pub open spec fn vertex_lossy(vertex: Seq<Element>) -> bool {
    match vertex_of(vertex) {
        Ok(v) => v.lossy,
        Err(_) => false,
    }
}

/// Some vertex component or index entry of the mesh element is coerced.
pub open spec fn mesh_lossy(mesh: Seq<Element>) -> bool {
    let vs = vertices_of(mesh);
    let ix = index_entries_of(mesh);
    (exists|k: int| 0 <= k < vs.len() && #[trigger] vertex_lossy(vs[k]@))
        || (exists|k: int| 0 <= k < ix.len() && !((#[trigger] ix[k]).value is I32))
}

/// `d` holds exactly the buffers that the mesh element describes.
pub open spec fn is_draft_of(mesh: Seq<Element>, d: MeshDraft) -> bool {
    let vs = vertices_of(mesh);
    &&& d.positions@.len() == vs.len()
    &&& d.normals@.len() == vs.len()
    &&& forall|k: int| 0 <= k < vs.len() ==> ((#[trigger] vertex_of(vs[k]@)) matches Ok(v)
        && v.position == d.positions@[k] && v.normal == d.normals@[k])
    &&& d.uvs@ == uvs_upto(vs, vs.len() as int)
    &&& d.indices@ == index_entries_of(mesh).map_values(|e: Element| index_bits(e.value))
    &&& d.lossy == mesh_lossy(mesh)
}

fn scalar(v: &ElementValue) -> (r: u32)
    ensures
        r == scalar_bits(*v),
{
    match v {
        ElementValue::F32(b) => *b,
        _ => 0,
    }
}

fn index_value(v: &ElementValue) -> (r: u32)
    ensures
        r == index_bits(*v),
{
    match v {
        ElementValue::I32(x) => *x as u32,
        _ => 0,
    }
}

fn is_float(v: &ElementValue) -> (r: bool)
    ensures
        r == (*v is F32),
{
    match v {
        ElementValue::F32(_) => true,
        _ => false,
    }
}

fn read_triple(vertex: &Vec<Element>, name: &str) -> (r: Option<(Triple, bool)>)
    ensures
        match triple_field(vertex@, name@) {
            Some(t) => r == Some((t, triple_lossy(vertex@, name@))),
            None => r is None,
        },
{
    let path: [&str; 1] = [name];
    let found = resolve(vertex, &path);
    assert(crate::element::path_view(&path) =~= seq![name@]);
    match found {
        Some(ElementValue::Array(a)) => if a.len() == 3 {
            let lossy = !is_float(&a[0]) || !is_float(&a[1]) || !is_float(&a[2]);
            Some(((scalar(&a[0]), scalar(&a[1]), scalar(&a[2])), lossy))
        } else {
            None
        },
        _ => None,
    }
}

fn read_pair(vertex: &Vec<Element>, name: &str) -> (r: Option<(Pair, bool)>)
    ensures
        match pair_field(vertex@, name@) {
            Some(t) => r == Some((t, pair_lossy(vertex@, name@))),
            None => r is None,
        },
{
    let path: [&str; 1] = [name];
    let found = resolve(vertex, &path);
    assert(crate::element::path_view(&path) =~= seq![name@]);
    match found {
        Some(ElementValue::Array(a)) => if a.len() == 2 {
            let lossy = !is_float(&a[0]) || !is_float(&a[1]);
            Some(((scalar(&a[0]), scalar(&a[1])), lossy))
        } else {
            None
        },
        _ => None,
    }
}

/// Reads one vertex record's position, normal and optional texture coordinates.
pub fn extract_vertex(vertex: &Vec<Element>) -> (r: Result<Vertex, RequiredField>)
    ensures
        r == vertex_of(vertex@),
{
    let (position, position_lossy) = match read_triple(vertex, "Position") {
        Some(p) => p,
        None => return Err(RequiredField::Position),
    };
    let (normal, normal_lossy) = match read_triple(vertex, "Normal") {
        Some(n) => n,
        None => return Err(RequiredField::Normal),
    };
    let (uv, uv_lossy) = match read_pair(vertex, "TextureCoordinates0") {
        Some((u, l)) => (Some(u), l),
        None => (None, false),
    };
    Ok(Vertex { position, normal, uv, lossy: position_lossy || normal_lossy || uv_lossy })
}


fn read_indices(entries: &Vec<Element>) -> (r: (Vec<u32>, bool))
    ensures
        r.0@ == entries@.map_values(|e: Element| index_bits(e.value)),
        r.1 == exists|k: int| 0 <= k < entries@.len() && !((#[trigger] entries@[k]).value is I32),
{
    let mut out: Vec<u32> = Vec::new();
    let mut lossy = false;
    let mut k: usize = 0;
    while k < entries.len()
        invariant
            k <= entries@.len(),
            out@ == entries@.subrange(0, k as int).map_values(|e: Element| index_bits(e.value)),
            lossy == exists|j: int| 0 <= j < k && !((#[trigger] entries@[j]).value is I32),
        decreases entries@.len() - k,
    {
        out.push(index_value(&entries[k].value));
        match &entries[k].value {
            ElementValue::I32(_) => {},
            _ => lossy = true,
        }
        assert(entries@.subrange(0, k + 1) =~= entries@.subrange(0, k as int).push(entries@[k as int]));
        k = k + 1;
    }
    assert(entries@.subrange(0, k as int) =~= entries@);
    (out, lossy)
}

/// Builds the vertex and index buffers of a mesh element. Vertices are read
/// in order, and the first that lacks a position or a normal fails the build.
pub fn build_mesh(mesh: &Vec<Element>) -> (r: Result<MeshDraft, RequiredField>)
    ensures
        match r {
            Ok(d) => mesh_error(mesh@) is None && is_draft_of(mesh@, d),
            Err(e) => mesh_error(mesh@) == Some(e),
        },
{
    let vpath: [&str; 2] = ["PrimaryVertexData", "Vertices"];
    let ipath: [&str; 2] = ["PrimaryTopology", "Indices"];
    assert(crate::element::path_view(&vpath) =~= vertices_path());
    assert(crate::element::path_view(&ipath) =~= indices_path());
    let vs = match resolve(mesh, &vpath) {
        Some(ElementValue::ArrayOfReferences(vs)) => vs,
        _ => return Err(RequiredField::Vertices),
    };
    let mut positions: Vec<Triple> = Vec::new();
    let mut normals: Vec<Triple> = Vec::new();
    let mut uvs: Vec<Pair> = Vec::new();
    let mut lossy = false;
    let mut k: usize = 0;
    while k < vs.len()
        invariant
            k <= vs@.len(),
            vs@ == vertices_of(mesh@),
            positions@.len() == k,
            normals@.len() == k,
            forall|j: int| 0 <= j < k ==> ((#[trigger] vertex_of(vs@[j]@)) matches Ok(v)
                && v.position == positions@[j] && v.normal == normals@[j]),
            uvs@ == uvs_upto(vs@, k as int),
            vertices_error_from(vs@, 0) == vertices_error_from(vs@, k as int),
            lossy == exists|j: int| 0 <= j < k && #[trigger] vertex_lossy(vs@[j]@),
        decreases vs@.len() - k,
    {
        match extract_vertex(&vs[k]) {
            Err(e) => return Err(e),
            Ok(v) => {
                positions.push(v.position);
                normals.push(v.normal);
                lossy = lossy || v.lossy;
                assert(vertex_lossy(vs@[k as int]@) == v.lossy);
                match v.uv {
                    Some(u) => uvs.push(u),
                    None => {},
                }
                proof {
                    assert(uvs_upto(vs@, k + 1) == uvs_upto(vs@, k as int) + match vertex_of(vs@[k as int]@) {
                        Ok(Vertex { uv: Some(u), .. }) => seq![u],
                        _ => Seq::<Pair>::empty(),
                    });
                    if v.uv is None {
                        assert(uvs@ =~= uvs_upto(vs@, k as int) + Seq::<Pair>::empty());
                    }
                }
            },
        }
        k = k + 1;
    }
    let ix = match resolve(mesh, &ipath) {
        Some(ElementValue::Reference(ix)) => ix,
        _ => return Err(RequiredField::Indices),
    };
    let (indices, indices_lossy) = read_indices(ix);
    Ok(MeshDraft { positions, normals, uvs, indices, lossy: lossy || indices_lossy })
}

} // verus!

use vstd::prelude::*;

use crate::element::{resolve, resolve_path, Element, ElementValue};
use crate::label::{decimal, numbered_label};

verus! {

/// A material to be made for one model: its label and the file name of the
/// diffuse texture to fetch, if the material names one.
#[derive(Debug, PartialEq, Eq)]
pub struct MaterialRequest {
    pub label: String,
    pub texture: Option<String>,
}

/// A material ready to be registered: its label and the label of its
/// diffuse texture, if one was loaded. All other shading values are defaults.
#[derive(Debug, PartialEq, Eq)]
pub struct MaterialDraft {
    pub label: String,
    pub texture: Option<String>,
}

pub open spec fn opt_view(o: Option<String>) -> Option<Seq<char>> {
    match o {
        Some(s) => Some(s@),
        None => None,
    }
}

/// The map descriptor of a material element.
pub open spec fn map_of(material: Seq<Element>) -> Option<Seq<Element>> {
    match resolve_path(material, seq!["Maps"@]) {
        Some(ElementValue::Reference(map)) => Some(map@),
        _ => None,
    }
}

/// The usage string of a material's map descriptor.
pub open spec fn usage_of(material: Seq<Element>) -> Option<Seq<char>> {
    match map_of(material) {
        Some(map) => match resolve_path(map, seq!["Usage"@]) {
            Some(ElementValue::String(u)) => Some(u@),
            _ => None,
        },
        None => None,
    }
}

pub open spec fn texture_path() -> Seq<Seq<char>> {
    seq!["Map"@, "Texture"@, "FromFileName"@]
}

/// The diffuse texture file that a material element names: only a map whose
/// usage is exactly "Diffuse Color" names one.
pub open spec fn diffuse_texture(material: Seq<Element>) -> Option<Seq<char>> {
    match map_of(material) {
        Some(map) => if usage_of(material) == Some("Diffuse Color"@) {
            match resolve_path(map, texture_path()) {
                Some(ElementValue::String(f)) => Some(f@),
                _ => None,
            }
        } else {
            None
        },
        None => None,
    }
}

/// Reads what material a material element asks for; `i` is the ordinal of
/// the model it belongs to, which names the material.
pub fn load_granny_material(material: &Vec<Element>, i: usize) -> (r: MaterialRequest)
    ensures
        r.label@ == "Material"@ + decimal(i as nat),
        opt_view(r.texture) == diffuse_texture(material@),
        usage_of(material@) != Some("Diffuse Color"@) ==> r.texture is None,
{
    let label = numbered_label("Material", i);
    let maps_path: [&str; 1] = ["Maps"];
    let usage_path: [&str; 1] = ["Usage"];
    let file_path: [&str; 3] = ["Map", "Texture", "FromFileName"];
    assert(crate::element::path_view(&maps_path) =~= seq!["Maps"@]);
    assert(crate::element::path_view(&usage_path) =~= seq!["Usage"@]);
    assert(crate::element::path_view(&file_path) =~= texture_path());
    let diffuse: String = "Diffuse Color".to_owned();
    let mut texture: Option<String> = None;
    if let Some(ElementValue::Reference(map)) = resolve(material, &maps_path) {
        if let Some(ElementValue::String(usage)) = resolve(map, &usage_path) {
            if *usage == diffuse {
                if let Some(ElementValue::String(file_name)) = resolve(map, &file_path) {
                    texture = Some(file_name.clone());
                }
            }
        }
    }
    MaterialRequest { label, texture }
}

/// The material that `request` settles into, given whether its texture loaded.
pub open spec fn settled(request: MaterialRequest, texture_loaded: bool) -> Option<MaterialDraft> {
    match request.texture {
        Some(f) => if texture_loaded {
            Some(MaterialDraft { label: request.label, texture: Some(f) })
        } else {
            None
        },
        None => Some(MaterialDraft { label: request.label, texture: None }),
    }
}

/// Settles a material once its texture fetch is over. A material that names
/// a texture which could not be fetched or decoded is dropped, so that the
/// mesh falls back to the default material; otherwise the material keeps its
/// label and refers to the texture under the texture's file name.
pub fn settle_material(request: MaterialRequest, texture_loaded: bool) -> (r: Option<MaterialDraft>)
    ensures
        r == settled(request, texture_loaded),
        r is None <==> (request.texture is Some && !texture_loaded),
        r matches Some(d) ==> d.label == request.label && d.texture == request.texture,
{
    match request.texture {
        Some(file_name) => if texture_loaded {
            Some(MaterialDraft { label: request.label, texture: Some(file_name) })
        } else {
            None
        },
        None => Some(MaterialDraft { label: request.label, texture: None }),
    }
}

/// A material whose map usage is anything but "Diffuse Color" ends up with
/// no texture, whether or not a fetch was reported to succeed.
pub proof fn lemma_other_usage_has_no_texture(material: Seq<Element>, request: MaterialRequest, texture_loaded: bool)
    requires
        opt_view(request.texture) == diffuse_texture(material),
        usage_of(material) != Some("Diffuse Color"@),
    ensures
        settled(request, texture_loaded) matches Some(d) && d.texture is None,
{
}

} // verus!

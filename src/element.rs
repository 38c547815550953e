use vstd::prelude::*;

verus! {

/// One named entry of a document's element tree.
#[derive(Debug, PartialEq)]
pub struct Element {
    pub name: String,
    pub value: ElementValue,
}

/// The tagged value that an element holds.
///
/// Floating-point scalars are carried as their IEEE-754 bit pattern: this
/// library copies them, it never computes with them.
#[derive(Debug, PartialEq)]
pub enum ElementValue {
    /// A single nested list of elements, one level of indirection.
    Reference(Vec<Element>),
    /// An ordered sequence of nested element lists.
    ArrayOfReferences(Vec<Vec<Element>>),
    /// A pointer to raw data that this library does not read.
    VariantReference,
    String(String),
    /// Bit pattern of a 32-bit float.
    F32(u32),
    I32(i32),
    /// A transform record; its contents are not read by this library.
    Transform,
    /// A homogeneous array of scalars.
    Array(Vec<ElementValue>),
}

/// Index of the first element named `name` at or after `k`.
pub open spec fn first_named_from(elements: Seq<Element>, name: Seq<char>, k: int) -> Option<int>
    decreases elements.len() - k,
{
    if k < 0 || k >= elements.len() {
        None
    } else if elements[k].name@ == name {
        Some(k)
    } else {
        first_named_from(elements, name, k + 1)
    }
}

/// What a path of field names reaches from a list of elements: the first
/// element carrying the leading name is taken, and the rest of the path
/// continues inside it only when it is a `Reference`.
pub open spec fn resolve_path(elements: Seq<Element>, path: Seq<Seq<char>>) -> Option<ElementValue>
    decreases path.len(),
{
    if path.len() == 0 {
        None
    } else {
        match first_named_from(elements, path[0], 0) {
            None => None,
            Some(i) => if path.len() == 1 {
                Some(elements[i].value)
            } else {
                match elements[i].value {
                    ElementValue::Reference(inner) => resolve_path(inner@, path.drop_first()),
                    _ => None,
                }
            },
        }
    }
}

pub open spec fn path_view(path: &[&str]) -> Seq<Seq<char>> {
    path@.map_values(|s: &str| s@)
}

pub open spec fn deref_value(r: Option<&ElementValue>) -> Option<ElementValue> {
    match r {
        Some(v) => Some(*v),
        None => None,
    }
}

proof fn lemma_first_named_bounds(elements: Seq<Element>, name: Seq<char>, k: int)
    ensures
        first_named_from(elements, name, k) matches Some(i) ==> k <= i < elements.len()
            && elements[i].name@ == name,
    decreases elements.len() - k,
{
    if 0 <= k < elements.len() && elements[k].name@ != name {
        lemma_first_named_bounds(elements, name, k + 1);
    }
}

fn first_named(elements: &Vec<Element>, name: &str) -> (r: Option<usize>)
    ensures
        match r {
            Some(i) => first_named_from(elements@, name@, 0) == Some(i as int),
            None => first_named_from(elements@, name@, 0) is None,
        },
{
    let wanted: String = name.to_owned();
    let mut k: usize = 0;
    while k < elements.len()
        invariant
            k <= elements.len(),
            wanted@ == name@,
            first_named_from(elements@, name@, 0) == first_named_from(elements@, name@, k as int),
        decreases elements.len() - k,
    {
        if elements[k].name == wanted {
            return Some(k);
        }
        k = k + 1;
    }
    None
}

fn resolve_from<'a>(elements: &'a Vec<Element>, path: &[&str], k: usize) -> (r: Option<&'a ElementValue>)
    requires
        k <= path@.len(),
    ensures
        deref_value(r) == resolve_path(elements@, path_view(path).subrange(k as int, path@.len() as int)),
    decreases path@.len() - k,
{
    let ghost rest = path_view(path).subrange(k as int, path@.len() as int);
    if k == path.len() {
        return None;
    }
    assert(rest[0] == path[k as int]@);
    match first_named(elements, path[k]) {
        None => None,
        Some(i) => {
            proof {
                lemma_first_named_bounds(elements@, path[k as int]@, 0);
            }
            if k + 1 == path.len() {
                Some(&elements[i].value)
            } else {
                match &elements[i].value {
                    ElementValue::Reference(inner) => {
                        let r = resolve_from(inner, path, k + 1);
                        assert(rest.drop_first() =~= path_view(path).subrange(k + 1, path@.len() as int));
                        r
                    },
                    _ => None,
                }
            }
        },
    }
}

/// Follows `path` from `elements`, one field name per entry.
pub fn resolve<'a>(elements: &'a Vec<Element>, path: &[&str]) -> (r: Option<&'a ElementValue>)
    ensures
        deref_value(r) == resolve_path(elements@, path_view(path)),
{
    let r = resolve_from(elements, path, 0);
    assert(path_view(path).subrange(0, path@.len() as int) =~= path_view(path));
    r
}

} // verus!

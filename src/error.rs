use vstd::prelude::*;

verus! {

/// A field whose absence makes the whole import fail.
#[derive(Debug, Clone, Copy, PartialEq, Eq)]
pub enum RequiredField {
    Models,
    MeshBindings,
    Vertices,
    Indices,
    Position,
    Normal,
}

/// Why an import failed.
#[derive(Debug, Clone, Copy, PartialEq, Eq)]
pub enum ImportError {
    /// The bytes could not be parsed into an element tree.
    MalformedDocument,
    /// A field the import cannot do without is absent or has the wrong shape.
    MissingRequiredField(RequiredField),
}

impl RequiredField {
    /// The message that names the failure.
    pub fn message(&self) -> (r: &'static str)
        ensures
            r@ == match *self {
                RequiredField::Models => "Missing Models"@,
                RequiredField::MeshBindings => "Missing MeshBindings"@,
                RequiredField::Vertices => "Missing Vertices"@,
                RequiredField::Indices => "Missing Indices"@,
                RequiredField::Position => "No position in vertex"@,
                RequiredField::Normal => "No normal in vertex"@,
            },
    {
        let r = match self {
            RequiredField::Models => "Missing Models",
            RequiredField::MeshBindings => "Missing MeshBindings",
            RequiredField::Vertices => "Missing Vertices",
            RequiredField::Indices => "Missing Indices",
            RequiredField::Position => "No position in vertex",
            RequiredField::Normal => "No normal in vertex",
        };
        r
    }
}

} // verus!

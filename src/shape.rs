use vstd::prelude::*;

verus! {

/// One field of a record: its name and the source text of its declared type.
pub struct FieldDescriptor {
    pub name: String,
    pub declared_type: String,
}

/// The shapes that a type description can take.
pub enum Shape {
    /// A struct whose fields all have names, in declaration order.
    NamedRecord(Vec<FieldDescriptor>),
    /// A struct whose fields are positional; the types in order.
    TupleRecord(Vec<String>),
    /// A struct with no field list at all.
    UnitRecord,
    /// An enum; the names of its variants.
    Sum(Vec<String>),
    /// A union and its fields.
    Union(Vec<FieldDescriptor>),
}

/// The input of a derivation: a type's name and its shape.
pub struct RawTypeDescription {
    pub name: String,
    pub shape: Shape,
}

/// Why a type description cannot be derived from.
#[derive(PartialEq, Eq, Structural)]
pub enum ShapeError {
    NotARecord,
}

impl ShapeError {
    /// The diagnostic shown for this error.
    pub fn message(&self) -> (r: String)
        ensures
            r@ == shape_error_message(),
    {
        String::from_str("Builder can only be derived for a struct with named fields, not an enum, tuple struct, unit struct or union")
    }
}

pub open spec fn shape_error_message() -> Seq<char> {
    "Builder can only be derived for a struct with named fields, not an enum, tuple struct, unit struct or union"@
}

/// The (name, declared type) pair of a field, as text.
pub open spec fn field_view(f: FieldDescriptor) -> (Seq<char>, Seq<char>) {
    (f.name@, f.declared_type@)
}

/// The field model of a list of fields: the pairs in the same order.
pub open spec fn model_view(fs: Seq<FieldDescriptor>) -> Seq<(Seq<char>, Seq<char>)> {
    fs.map_values(|f: FieldDescriptor| field_view(f))
}

/// The fields of a description, or the error, as the extractor decides.
pub open spec fn extracted(d: RawTypeDescription) -> Result<Seq<(Seq<char>, Seq<char>)>, ShapeError> {
    match d.shape {
        Shape::NamedRecord(fs) => Ok(model_view(fs@)),
        _ => Err(ShapeError::NotARecord),
    }
}

/// Field model extractor: the named fields of a record in declaration order,
/// or `NotARecord` for every other shape.
pub fn get_fields_from_derive_input(d: &RawTypeDescription) -> (r: Result<&Vec<FieldDescriptor>, ShapeError>)
    ensures
        match r {
            Ok(fs) => d.shape == Shape::NamedRecord(*fs),
            Err(e) => !(d.shape is NamedRecord) && e == ShapeError::NotARecord,
        },
        match r {
            Ok(fs) => extracted(*d) == Ok::<Seq<(Seq<char>, Seq<char>)>, ShapeError>(model_view(fs@)),
            Err(e) => extracted(*d) == Err::<Seq<(Seq<char>, Seq<char>)>, ShapeError>(e),
        },
{
    match &d.shape {
        Shape::NamedRecord(fs) => Ok(fs),
        _ => Err(ShapeError::NotARecord),
    }
}

} // verus!

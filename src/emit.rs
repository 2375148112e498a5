use vstd::prelude::*;
use crate::shape::{FieldDescriptor, RawTypeDescription, ShapeError, field_view, model_view, extracted, get_fields_from_derive_input};

verus! {

/// A field model: (name, declared type) pairs in declaration order.
pub type Model = Seq<(Seq<char>, Seq<char>)>;

/// The accumulator's type for a field of declared type `t`.
pub open spec fn optional_of(t: Seq<char>) -> Seq<char> {
    "std::option::Option<"@ + t + ">"@
}

/// The name of the builder type derived for a record named `name`.
pub open spec fn builder_name_of(name: Seq<char>) -> Seq<char> {
    name + "Builder"@
}

/// The fields of the builder: same names, each type wrapped as optional.
pub open spec fn builder_fields_of(m: Model) -> Model {
    m.map_values(|p: (Seq<char>, Seq<char>)| (p.0, optional_of(p.1)))
}

/// `name: type, ` for each pair, in order.
pub open spec fn decls_text(m: Model) -> Seq<char>
    decreases m.len(),
{
    if m.len() == 0 {
        Seq::empty()
    } else {
        decls_text(m.drop_last()) + m.last().0 + ": "@ + m.last().1 + ", "@
    }
}

/// The declaration of the builder type.
pub open spec fn struct_text(name: Seq<char>, m: Model) -> Seq<char> {
    "pub struct "@ + builder_name_of(name) + " { "@ + decls_text(builder_fields_of(m)) + "}"@
}

/// The initialiser of one builder field: absent.
pub open spec fn init_clause(n: Seq<char>) -> Seq<char> {
    n + ": std::option::Option::None"@
}

/// The initialisers of all builder fields, each followed by `, `.
pub open spec fn inits_text(m: Model) -> Seq<char>
    decreases m.len(),
{
    if m.len() == 0 {
        Seq::empty()
    } else {
        inits_text(m.drop_last()) + init_clause(m.last().0) + ", "@
    }
}

/// The `builder()` factory attached to the record type.
pub open spec fn factory_text(name: Seq<char>, m: Model) -> Seq<char> {
    "impl "@ + name + " { pub fn builder() -> "@ + builder_name_of(name) + " { "@
        + builder_name_of(name) + " { "@ + inits_text(m) + "} } }"@
}

/// The setter of one field.
pub open spec fn setter_text(n: Seq<char>, t: Seq<char>) -> Seq<char> {
    "fn "@ + n + "(&mut self, "@ + n + ": "@ + t + ") -> &mut Self { self."@ + n
        + " = std::option::Option::Some("@ + n + "); self } "@
}

/// The setters of all fields, in order.
pub open spec fn setters_text(m: Model) -> Seq<char>
    decreases m.len(),
{
    if m.len() == 0 {
        Seq::empty()
    } else {
        setters_text(m.drop_last()) + setter_text(m.last().0, m.last().1)
    }
}

/// The presence check of one field in `build`.
pub open spec fn check_text(n: Seq<char>) -> Seq<char> {
    "if self."@ + n + ".is_none() { return std::result::Result::Err(std::string::String::from(\""@
        + n + " field missing\").into()); } "@
}

/// The presence checks of all fields, in order.
pub open spec fn checks_text(m: Model) -> Seq<char>
    decreases m.len(),
{
    if m.len() == 0 {
        Seq::empty()
    } else {
        checks_text(m.drop_last()) + check_text(m.last().0)
    }
}

/// The initialiser of one record field from the builder's stored value.
pub open spec fn fill_text(n: Seq<char>) -> Seq<char> {
    n + ": self."@ + n + ".clone().unwrap(), "@
}

/// The initialisers of all record fields, in order.
pub open spec fn fills_text(m: Model) -> Seq<char>
    decreases m.len(),
{
    if m.len() == 0 {
        Seq::empty()
    } else {
        fills_text(m.drop_last()) + fill_text(m.last().0)
    }
}

/// The validated `build` operation.
pub open spec fn build_text(name: Seq<char>, m: Model) -> Seq<char> {
    "pub fn build(&mut self) -> std::result::Result<"@ + name
        + ", std::boxed::Box<dyn std::error::Error>> { "@ + checks_text(m) + "let ret = "@ + name
        + " { "@ + fills_text(m) + "}; std::result::Result::Ok(ret) } "@
}

/// Everything emitted for a record named `name` with field model `m`.
pub open spec fn expansion_text(name: Seq<char>, m: Model) -> Seq<char> {
    struct_text(name, m) + " "@ + factory_text(name, m) + " impl "@ + builder_name_of(name) + " { "@
        + setters_text(m) + build_text(name, m) + "}"@
}

/// The outcome of deriving from a description.
pub open spec fn derive_outcome(d: RawTypeDescription) -> Result<Seq<char>, ShapeError> {
    match extracted(d) {
        Ok(m) => Ok(expansion_text(d.name@, m)),
        Err(e) => Err(e),
    }
}

/// `name + "Builder"`.
pub fn builder_name(name: &str) -> (r: String)
    ensures
        r@ == builder_name_of(name@),
{
    let mut r = String::from_str(name);
    r.append("Builder");
    r
}

/// The builder's fields: each field of the record under the same name, its
/// type wrapped in `Option`, in the same order.
pub fn builder_fields(fields: &Vec<FieldDescriptor>) -> (r: Vec<FieldDescriptor>)
    ensures
        model_view(r@) == builder_fields_of(model_view(fields@)),
{
    let mut r: Vec<FieldDescriptor> = Vec::new();
    let mut i: usize = 0;
    while i < fields.len()
        invariant
            i <= fields.len(),
            r@.len() == i,
            forall|j: int| 0 <= j < i ==> #[trigger] field_view(r@[j]) == (fields@[j].name@, optional_of(fields@[j].declared_type@)),
        decreases fields.len() - i,
    {
        let f = &fields[i];
        let mut ty = String::from_str("std::option::Option<");
        ty.append(f.declared_type.as_str());
        ty.append(">");
        r.push(FieldDescriptor { name: f.name.clone(), declared_type: ty });
        i = i + 1;
    }
    assert(model_view(r@) =~= builder_fields_of(model_view(fields@)));
    r
}

/// `name: type, ` for each field, in order.
fn render_decls(fs: &Vec<FieldDescriptor>) -> (r: String)
    ensures
        r@ == decls_text(model_view(fs@)),
{
    let ghost m = model_view(fs@);
    let mut r = String::new();
    let mut i: usize = 0;
    while i < fs.len()
        invariant
            i <= fs.len(),
            m == model_view(fs@),
            r@ == decls_text(m.subrange(0, i as int)),
        decreases fs.len() - i,
    {
        proof {
            assert(m.subrange(0, i + 1).drop_last() =~= m.subrange(0, i as int));
        }
        r.append(fs[i].name.as_str());
        r.append(": ");
        r.append(fs[i].declared_type.as_str());
        r.append(", ");
        i = i + 1;
    }
    assert(m.subrange(0, fs@.len() as int) =~= m);
    r
}

/// Builder type emitter, body: the builder's field declarations.
pub fn generate_builder_struct_fields_def(fields: &Vec<FieldDescriptor>) -> (r: String)
    ensures
        r@ == decls_text(builder_fields_of(model_view(fields@))),
{
    let wrapped = builder_fields(fields);
    render_decls(&wrapped)
}

/// Builder type emitter: the declaration of the builder type.
pub fn generate_builder_struct(name: &str, fields: &Vec<FieldDescriptor>) -> (r: String)
    ensures
        r@ == struct_text(name@, model_view(fields@)),
{
    let mut r = String::from_str("pub struct ");
    let b = builder_name(name);
    r.append(b.as_str());
    r.append(" { ");
    let decls = generate_builder_struct_fields_def(fields);
    r.append(decls.as_str());
    r.append("}");
    r
}

/// The initialiser of each builder field, in order: every field absent.
pub fn generate_builder_struct_factory_init_clauses(fields: &Vec<FieldDescriptor>) -> (r: Vec<String>)
    ensures
        r@.len() == fields@.len(),
        forall|i: int| 0 <= i < r@.len() ==> #[trigger] r@[i]@ == init_clause(fields@[i].name@),
{
    let mut r: Vec<String> = Vec::new();
    let mut i: usize = 0;
    while i < fields.len()
        invariant
            i <= fields.len(),
            r@.len() == i,
            forall|j: int| 0 <= j < i ==> #[trigger] r@[j]@ == init_clause(fields@[j].name@),
        decreases fields.len() - i,
    {
        let mut c = fields[i].name.clone();
        c.append(": std::option::Option::None");
        r.push(c);
        i = i + 1;
    }
    r
}

/// Factory emitter: `impl Record { pub fn builder() -> RecordBuilder { .. } }`
/// with every field of the builder absent.
pub fn generate_builder_factory(name: &str, fields: &Vec<FieldDescriptor>) -> (r: String)
    ensures
        r@ == factory_text(name@, model_view(fields@)),
{
    let ghost m = model_view(fields@);
    let clauses = generate_builder_struct_factory_init_clauses(fields);
    let b = builder_name(name);
    let mut inits = String::new();
    let mut i: usize = 0;
    while i < clauses.len()
        invariant
            i <= clauses.len(),
            clauses@.len() == fields@.len(),
            m == model_view(fields@),
            forall|j: int| 0 <= j < clauses@.len() ==> #[trigger] clauses@[j]@ == init_clause(fields@[j].name@),
            inits@ == inits_text(m.subrange(0, i as int)),
        decreases clauses.len() - i,
    {
        proof {
            assert(m.subrange(0, i + 1).drop_last() =~= m.subrange(0, i as int));
        }
        inits.append(clauses[i].as_str());
        inits.append(", ");
        i = i + 1;
    }
    assert(m.subrange(0, fields@.len() as int) =~= m);
    let mut r = String::from_str("impl ");
    r.append(name);
    r.append(" { pub fn builder() -> ");
    r.append(b.as_str());
    r.append(" { ");
    r.append(b.as_str());
    r.append(" { ");
    r.append(inits.as_str());
    r.append("} } }");
    r
}

/// Setter emitter: one chaining setter per field, in order.
pub fn generate_setter_functions(fields: &Vec<FieldDescriptor>) -> (r: String)
    ensures
        r@ == setters_text(model_view(fields@)),
{
    let ghost m = model_view(fields@);
    let mut r = String::new();
    let mut i: usize = 0;
    while i < fields.len()
        invariant
            i <= fields.len(),
            m == model_view(fields@),
            r@ == setters_text(m.subrange(0, i as int)),
        decreases fields.len() - i,
    {
        proof {
            assert(m.subrange(0, i + 1).drop_last() =~= m.subrange(0, i as int));
        }
        let n = fields[i].name.as_str();
        r.append("fn ");
        r.append(n);
        r.append("(&mut self, ");
        r.append(n);
        r.append(": ");
        r.append(fields[i].declared_type.as_str());
        r.append(") -> &mut Self { self.");
        r.append(n);
        r.append(" = std::option::Option::Some(");
        r.append(n);
        r.append("); self } ");
        i = i + 1;
    }
    assert(m.subrange(0, fields@.len() as int) =~= m);
    r
}

/// Build emitter: checks each field in declaration order, failing on the
/// first absent one with `<name> field missing`, then constructs the record
/// from clones of the stored values.
pub fn generate_build_function(fields: &Vec<FieldDescriptor>, origin: &str) -> (r: String)
    ensures
        r@ == build_text(origin@, model_view(fields@)),
{
    let ghost m = model_view(fields@);
    let mut checks = String::new();
    let mut fills = String::new();
    let mut i: usize = 0;
    while i < fields.len()
        invariant
            i <= fields.len(),
            m == model_view(fields@),
            checks@ == checks_text(m.subrange(0, i as int)),
            fills@ == fills_text(m.subrange(0, i as int)),
        decreases fields.len() - i,
    {
        proof {
            assert(m.subrange(0, i + 1).drop_last() =~= m.subrange(0, i as int));
        }
        let n = fields[i].name.as_str();
        checks.append("if self.");
        checks.append(n);
        checks.append(".is_none() { return std::result::Result::Err(std::string::String::from(\"");
        checks.append(n);
        checks.append(" field missing\").into()); } ");
        fills.append(n);
        fills.append(": self.");
        fills.append(n);
        fills.append(".clone().unwrap(), ");
        i = i + 1;
    }
    assert(m.subrange(0, fields@.len() as int) =~= m);
    let mut r = String::from_str("pub fn build(&mut self) -> std::result::Result<");
    r.append(origin);
    r.append(", std::boxed::Box<dyn std::error::Error>> { ");
    r.append(checks.as_str());
    r.append("let ret = ");
    r.append(origin);
    r.append(" { ");
    r.append(fills.as_str());
    r.append("}; std::result::Result::Ok(ret) } ");
    r
}

/// Orchestrator: extracts the field model, then emits the builder type, the
/// factory, the setters and `build`, in that order, as one text; a shape
/// error is passed on unchanged and nothing is emitted.
pub fn do_expand(d: &RawTypeDescription) -> (r: Result<String, ShapeError>)
    ensures
        match r {
            Ok(s) => derive_outcome(*d) == Ok::<Seq<char>, ShapeError>(s@),
            Err(e) => derive_outcome(*d) == Err::<Seq<char>, ShapeError>(e),
        },
{
    let fields = match get_fields_from_derive_input(d) {
        Ok(fs) => fs,
        Err(e) => return Err(e),
    };
    let name = d.name.as_str();
    let mut r = generate_builder_struct(name, fields);
    r.append(" ");
    let factory = generate_builder_factory(name, fields);
    r.append(factory.as_str());
    r.append(" impl ");
    let b = builder_name(name);
    r.append(b.as_str());
    r.append(" { ");
    let setters = generate_setter_functions(fields);
    r.append(setters.as_str());
    let build = generate_build_function(fields, name);
    r.append(build.as_str());
    r.append("}");
    Ok(r)
}

/// Deriving from a record with named fields succeeds, and the emitted text
/// opens with the builder's declaration, whose fields are the record's own,
/// one each, in the same order, under the same names, each type wrapped in
/// `Option`.
pub proof fn lemma_named_record_derives(d: RawTypeDescription)
    requires
        d.shape is NamedRecord,
    ensures
        derive_outcome(d) is Ok,
        ({
            let m = model_view(d.shape->NamedRecord_0@);
            let bf = builder_fields_of(m);
            &&& derive_outcome(d)->Ok_0.subrange(0, struct_text(d.name@, m).len() as int) == struct_text(d.name@, m)
            &&& struct_text(d.name@, m) == "pub struct "@ + builder_name_of(d.name@) + " { "@ + decls_text(bf) + "}"@
            &&& bf.len() == m.len()
            &&& forall|i: int| 0 <= i < m.len() ==> #[trigger] bf[i] == (m[i].0, optional_of(m[i].1))
        }),
{
    let m = model_view(d.shape->NamedRecord_0@);
    let t = expansion_text(d.name@, m);
    assert(t.subrange(0, struct_text(d.name@, m).len() as int) =~= struct_text(d.name@, m));
}

/// Deriving from anything but a record with named fields fails with
/// `NotARecord`, and nothing is emitted.
pub proof fn lemma_other_shapes_rejected(d: RawTypeDescription)
    requires
        !(d.shape is NamedRecord),
    ensures
        derive_outcome(d) == Err::<Seq<char>, ShapeError>(ShapeError::NotARecord),
{
}

} // verus!

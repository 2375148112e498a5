use derive_builder::emit::{
    builder_fields, builder_name, do_expand, generate_build_function, generate_builder_factory,
    generate_builder_struct, generate_builder_struct_factory_init_clauses,
    generate_builder_struct_fields_def, generate_setter_functions,
};
use derive_builder::shape::{
    get_fields_from_derive_input, FieldDescriptor, RawTypeDescription, Shape, ShapeError,
};

fn field(name: &str, ty: &str) -> FieldDescriptor {
    FieldDescriptor { name: name.to_string(), declared_type: ty.to_string() }
}

fn command_fields() -> Vec<FieldDescriptor> {
    vec![
        field("executable", "String"),
        field("args", "Vec<String>"),
        field("env", "Vec<String>"),
        field("current_dir", "Option<String>"),
    ]
}

fn record(name: &str, fields: Vec<FieldDescriptor>) -> RawTypeDescription {
    RawTypeDescription { name: name.to_string(), shape: Shape::NamedRecord(fields) }
}

fn is_not_a_record(r: &Result<String, ShapeError>) -> bool {
    matches!(r, Err(ShapeError::NotARecord))
}

#[test]
fn builder_name_appends_suffix() {
    assert_eq!(builder_name("Command"), "CommandBuilder");
    assert_eq!(builder_name(""), "Builder");
}

#[test]
fn extractor_keeps_declaration_order() {
    let d = record("Command", command_fields());
    let fs = get_fields_from_derive_input(&d).ok().expect("a record with named fields");
    let names: Vec<&str> = fs.iter().map(|f| f.name.as_str()).collect();
    assert_eq!(names, vec!["executable", "args", "env", "current_dir"]);
    assert_eq!(fs[1].declared_type, "Vec<String>");
}

#[test]
fn extractor_rejects_other_shapes() {
    let shapes = vec![
        Shape::TupleRecord(vec!["u8".to_string()]),
        Shape::UnitRecord,
        Shape::Sum(vec!["A".to_string(), "B".to_string()]),
        Shape::Union(vec![field("a", "u32")]),
    ];
    for shape in shapes {
        let d = RawTypeDescription { name: "T".to_string(), shape };
        assert!(matches!(get_fields_from_derive_input(&d), Err(ShapeError::NotARecord)));
        assert!(is_not_a_record(&do_expand(&d)));
    }
}

#[test]
fn shape_error_names_what_was_required() {
    let m = ShapeError::NotARecord.message();
    assert!(m.contains("struct with named fields"));
}

#[test]
fn builder_fields_wrap_every_type_once() {
    let bf = builder_fields(&command_fields());
    assert_eq!(bf.len(), 4);
    assert_eq!(bf[0].name, "executable");
    assert_eq!(bf[0].declared_type, "std::option::Option<String>");
    assert_eq!(bf[3].name, "current_dir");
    assert_eq!(bf[3].declared_type, "std::option::Option<Option<String>>");
}

#[test]
fn struct_fields_def_text() {
    let t = generate_builder_struct_fields_def(&vec![field("a", "u8"), field("b", "Option<u8>")]);
    assert_eq!(t, "a: std::option::Option<u8>, b: std::option::Option<Option<u8>>, ");
}

#[test]
fn builder_struct_text() {
    let t = generate_builder_struct("Point", &vec![field("x", "i32"), field("y", "i32")]);
    assert_eq!(
        t,
        "pub struct PointBuilder { x: std::option::Option<i32>, y: std::option::Option<i32>, }"
    );
}

#[test]
fn factory_init_clauses() {
    let c = generate_builder_struct_factory_init_clauses(&command_fields());
    assert_eq!(c.len(), 4);
    assert_eq!(c[0], "executable: std::option::Option::None");
    assert_eq!(c[3], "current_dir: std::option::Option::None");
}

#[test]
fn factory_text() {
    let t = generate_builder_factory("Point", &vec![field("x", "i32")]);
    assert_eq!(
        t,
        "impl Point { pub fn builder() -> PointBuilder { PointBuilder { x: std::option::Option::None, } } }"
    );
}

#[test]
fn setter_text() {
    let t = generate_setter_functions(&vec![field("x", "i32"), field("name", "String")]);
    assert_eq!(
        t,
        "fn x(&mut self, x: i32) -> &mut Self { self.x = std::option::Option::Some(x); self } \
         fn name(&mut self, name: String) -> &mut Self { self.name = std::option::Option::Some(name); self } "
    );
}

#[test]
fn build_function_text() {
    let t = generate_build_function(&vec![field("x", "i32"), field("y", "i32")], "Point");
    assert_eq!(
        t,
        "pub fn build(&mut self) -> std::result::Result<Point, std::boxed::Box<dyn std::error::Error>> { \
         if self.x.is_none() { return std::result::Result::Err(std::string::String::from(\"x field missing\").into()); } \
         if self.y.is_none() { return std::result::Result::Err(std::string::String::from(\"y field missing\").into()); } \
         let ret = Point { x: self.x.clone().unwrap(), y: self.y.clone().unwrap(), }; std::result::Result::Ok(ret) } "
    );
}

#[test]
fn full_expansion_of_one_field_record() {
    let t = do_expand(&record("Unit1", vec![field("v", "u64")])).ok().expect("a record");
    assert_eq!(
        t,
        "pub struct Unit1Builder { v: std::option::Option<u64>, } \
         impl Unit1 { pub fn builder() -> Unit1Builder { Unit1Builder { v: std::option::Option::None, } } } \
         impl Unit1Builder { \
         fn v(&mut self, v: u64) -> &mut Self { self.v = std::option::Option::Some(v); self } \
         pub fn build(&mut self) -> std::result::Result<Unit1, std::boxed::Box<dyn std::error::Error>> { \
         if self.v.is_none() { return std::result::Result::Err(std::string::String::from(\"v field missing\").into()); } \
         let ret = Unit1 { v: self.v.clone().unwrap(), }; std::result::Result::Ok(ret) } }"
    );
}

#[test]
fn zero_field_record_expansion() {
    let t = do_expand(&record("Empty", vec![])).ok().expect("a record");
    assert_eq!(
        t,
        "pub struct EmptyBuilder { } \
         impl Empty { pub fn builder() -> EmptyBuilder { EmptyBuilder { } } } \
         impl EmptyBuilder { \
         pub fn build(&mut self) -> std::result::Result<Empty, std::boxed::Box<dyn std::error::Error>> { \
         let ret = Empty { }; std::result::Result::Ok(ret) } }"
    );
}

#[test]
fn command_expansion_lists_each_field_in_order() {
    let t = do_expand(&record("Command", command_fields())).ok().expect("a record");
    assert!(t.starts_with(
        "pub struct CommandBuilder { executable: std::option::Option<String>, \
         args: std::option::Option<Vec<String>>, env: std::option::Option<Vec<String>>, \
         current_dir: std::option::Option<Option<String>>, }"
    ));
    let e = t.find("fn executable(").expect("setter");
    let a = t.find("fn args(").expect("setter");
    let v = t.find("fn env(").expect("setter");
    let c = t.find("fn current_dir(").expect("setter");
    let b = t.find("pub fn build(").expect("build");
    assert!(e < a && a < v && v < c && c < b);
    assert!(t.contains("\"env field missing\""));
}

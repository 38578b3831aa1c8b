use nullable_struct::companion::NullableTestStruct;
use nullable_struct::decl::{FieldDecl, GenError, InputDecl, RecordDecl};
use nullable_struct::generate::nullable;
use nullable_struct::render::render;

fn named(name: &str, ty: &str) -> FieldDecl {
    FieldDecl {
        name: Some(name.to_string()),
        ty: ty.to_string(),
    }
}

fn record(name: &str, fields: Vec<FieldDecl>) -> InputDecl {
    InputDecl::Struct(RecordDecl {
        name: name.to_string(),
        fields,
    })
}

#[test]
fn test_new() {
    let s = NullableTestStruct::new(42, "hello".to_string());
    assert_eq!(s.field1(), 42);
    assert_eq!(s.field2(), "hello".to_string());
}

#[test]
fn test_new_default() {
    let s = NullableTestStruct::new_default();
    assert_eq!(s.field1(), 0); // Default for i32 is 0
    assert_eq!(s.field2(), ""); // Default for String is ""
}

#[test]
fn test_getters() {
    let mut s = NullableTestStruct::new(42, "hello".to_string());
    assert_eq!(s.get_field1(), Some(&42));
    assert_eq!(s.get_field2(), Some(&"hello".to_string()));

    s = NullableTestStruct::default();
    assert_eq!(s.get_field1(), None);
    assert_eq!(s.get_field2(), None);
}

#[test]
fn test_setters() {
    let mut s = NullableTestStruct::default();
    s.set_field1(42);
    s.set_field2("hello".to_string());

    assert_eq!(s.field1(), 42);
    assert_eq!(s.field2(), "hello".to_string());
}

#[test]
fn test_default() {
    let s = NullableTestStruct::default();
    assert_eq!(s.field1(), 0); // Default for i32 is 0
    assert_eq!(s.field2(), ""); // Default for String is ""
}

#[test]
fn test_companion_scenario() {
    let s = NullableTestStruct::new(42, "hello".to_string());
    assert_eq!(s.field1(), 42);
    assert_eq!(s.field2(), "hello".to_string());

    let s = NullableTestStruct::new_default();
    assert_eq!(s.field1(), 0);
    assert_eq!(s.field2(), "");

    let mut s = NullableTestStruct::default();
    assert_eq!(s.get_field1(), None);
    assert_eq!(s.get_field2(), None);
    s.set_field1(13);
    s.set_field2("world".to_string());
    assert_eq!(s.get_field1(), Some(&13));
    assert_eq!(s.get_field2(), Some(&"world".to_string()));
}

#[test]
fn test_generator_derives_method_names() {
    let input = record("TestStruct", vec![named("Field1", "i32")]);
    let g = nullable(&input).unwrap();
    assert_eq!(g.name, "NullableTestStruct");
    assert_eq!(g.fields.len(), 1);
    assert_eq!(g.fields[0].name, "Field1");
    assert_eq!(g.fields[0].ty, "i32");
    assert_eq!(g.fields[0].get_name, "get_field1");
    assert_eq!(g.fields[0].set_name, "set_field1");
}

#[test]
fn test_generator_keeps_field_order() {
    let input = record(
        "Point",
        vec![named("x", "i32"), named("y", "i32"), named("label", "String")],
    );
    let g = nullable(&input).unwrap();
    assert_eq!(g.name, "NullablePoint");
    assert_eq!(g.fields.len(), 3);
    assert_eq!(g.fields[0].name, "x");
    assert_eq!(g.fields[1].name, "y");
    assert_eq!(g.fields[2].name, "label");
    assert_eq!(g.fields[2].get_name, "get_label");
    assert_eq!(g.fields[2].set_name, "set_label");
}

#[test]
fn test_generator_rejects_enum() {
    assert_eq!(nullable(&InputDecl::Enum), Err(GenError::NotAStruct));
}

#[test]
fn test_generator_rejects_union() {
    assert_eq!(nullable(&InputDecl::Union), Err(GenError::NotAStruct));
}

#[test]
fn test_generator_rejects_unnamed_field() {
    let unnamed = FieldDecl {
        name: None,
        ty: "i32".to_string(),
    };
    let input = record("Pair", vec![named("first", "i32"), unnamed]);
    assert_eq!(nullable(&input), Err(GenError::UnnamedField));
}

#[test]
fn test_render_one_field() {
    let input = record("Foo", vec![named("field1", "i32")]);
    let g = nullable(&input).unwrap();
    let text = render(&g);
    let expected = "pub struct NullableFoo {\n\
                    \x20   field1: std::option::Option<i32>,\n\
                    }\n\
                    \n\
                    impl NullableFoo {\n\
                    \x20   pub fn new(field1: i32, ) -> Self {\n\
                    \x20       Self {\n\
                    \x20           field1: Some(field1),\n\
                    \x20       }\n\
                    \x20   }\n\
                    \n\
                    \x20   pub fn new_default() -> Self {\n\
                    \x20       Self {\n\
                    \x20           field1: Some(i32::default()),\n\
                    \x20       }\n\
                    \x20   }\n\
                    \n\
                    \x20   pub fn field1(&self) -> i32 {\n\
                    \x20       self.field1.clone().unwrap_or_default()\n\
                    \x20   }\n\
                    \n\
                    \x20   pub fn get_field1(&self) -> Option<&i32> {\n\
                    \x20       self.field1.as_ref()\n\
                    \x20   }\n\
                    \n\
                    \x20   pub fn set_field1(&mut self, value: i32) {\n\
                    \x20       self.field1 = Some(value)\n\
                    \x20   }\n\
                    \n\
                    }\n\
                    \n\
                    impl Default for NullableFoo {\n\
                    \x20   fn default() -> Self {\n\
                    \x20       Self {\n\
                    \x20           field1: None,\n\
                    \x20       }\n\
                    \x20   }\n\
                    }\n";
    assert_eq!(text, expected);
}

#[test]
fn test_render_parses_as_rust() {
    let input = record(
        "TestStruct",
        vec![named("field1", "i32"), named("field2", "String")],
    );
    let g = nullable(&input).unwrap();
    let text = render(&g);
    let parsed = syn::parse_file(&text);
    assert!(parsed.is_ok());
}

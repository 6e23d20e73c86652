use toml_comment::{
    classify, derive_toml_comment, is_option_type, is_section_type, FieldDecl, FieldType,
    SchemaError, Shape, StructDecl, TypeDescriptor,
};

fn path(name: &str, args: Vec<FieldType>) -> FieldType {
    FieldType::Path { name: name.to_string(), args }
}

fn named(name: &str) -> FieldType {
    path(name, Vec::new())
}

fn option(inner: FieldType) -> FieldType {
    path("Option", vec![inner])
}

fn map(kind: &str, value: FieldType) -> FieldType {
    path(kind, vec![named("String"), value])
}

fn optional(inner: Shape) -> Shape {
    Shape::Optional(Box::new(inner))
}

fn mapping(inner: Shape) -> Shape {
    Shape::Mapping(Box::new(inner))
}

fn decl(name: &str, ty: FieldType, inline: bool, nested: Option<TypeDescriptor>) -> FieldDecl {
    FieldDecl {
        name: name.to_string(),
        ty,
        documentation: vec![format!(" about {name}")],
        inline,
        nested,
    }
}

fn empty_type() -> TypeDescriptor {
    TypeDescriptor { type_documentation: Vec::new(), fields: Vec::new() }
}

#[test]
fn every_scalar_is_a_leaf() {
    let scalars = [
        "bool", "u8", "u16", "u32", "u64", "u128", "i8", "i16", "i32", "i64", "i128", "f32",
        "f64", "usize", "isize", "String",
    ];
    for name in scalars {
        assert_eq!(classify(&named(name), false), Shape::Leaf, "{name}");
        assert!(!is_section_type(&named(name)), "{name}");
    }
}

#[test]
fn named_type_without_arguments_is_a_section() {
    assert_eq!(classify(&named("ServerConfig"), false), Shape::Section);
    assert_eq!(classify(&named("LogLevel"), false), Shape::Section);
    assert_eq!(classify(&named("string"), false), Shape::Section);
    assert_eq!(classify(&named("Bool"), false), Shape::Section);
    assert_eq!(classify(&named("u8x"), false), Shape::Section);
    assert!(is_section_type(&named("ServerConfig")));
}

#[test]
fn inline_marker_wins_over_every_type() {
    assert_eq!(classify(&named("LogLevel"), true), Shape::Inline);
    assert_eq!(classify(&named("String"), true), Shape::Inline);
    assert_eq!(classify(&option(named("LogLevel")), true), Shape::Inline);
    assert_eq!(classify(&map("HashMap", named("String")), true), Shape::Inline);
    assert_eq!(classify(&path("Vec", vec![named("u8")]), true), Shape::Inline);
    assert_eq!(classify(&FieldType::Other, true), Shape::Inline);
}

#[test]
fn option_is_optional_and_never_a_section() {
    assert_eq!(classify(&option(named("String")), false), optional(Shape::Leaf));
    assert_eq!(classify(&option(named("u32")), false), optional(Shape::Leaf));
    assert_eq!(classify(&option(named("LogLevel")), false), optional(Shape::Leaf));
    assert_eq!(classify(&option(named("ServerConfig")), false), optional(Shape::Leaf));
    assert_eq!(classify(&option(path("Vec", vec![named("u8")])), false), optional(Shape::Leaf));
    assert_eq!(classify(&option(option(named("u8"))), false), optional(Shape::Leaf));
    assert_eq!(classify(&option(FieldType::Other), false), optional(Shape::Leaf));
}

#[test]
fn option_of_map_wraps_the_mapping() {
    assert_eq!(
        classify(&option(map("BTreeMap", named("String"))), false),
        optional(mapping(Shape::Leaf))
    );
}

#[test]
fn text_keyed_map_is_a_mapping() {
    assert_eq!(classify(&map("HashMap", named("String")), false), mapping(Shape::Leaf));
    assert_eq!(classify(&map("BTreeMap", named("u64")), false), mapping(Shape::Leaf));
    assert_eq!(classify(&map("IndexMap", named("bool")), false), mapping(Shape::Leaf));
    assert_eq!(classify(&map("HashMap", named("ServerConfig")), false), mapping(Shape::Leaf));
    assert_eq!(classify(&map("HashMap", option(named("u8"))), false), mapping(Shape::Leaf));
    assert_eq!(
        classify(&map("HashMap", map("BTreeMap", named("u8"))), false),
        mapping(mapping(Shape::Leaf))
    );
}

#[test]
fn map_with_another_key_is_a_leaf() {
    assert_eq!(classify(&path("HashMap", vec![named("u32"), named("String")]), false), Shape::Leaf);
    assert_eq!(
        classify(&path("HashMap", vec![FieldType::Other, named("String")]), false),
        Shape::Leaf
    );
    assert_eq!(
        classify(&path("HashMap", vec![path("String", vec![named("u8")]), named("u8")]), false),
        Shape::Leaf
    );
    assert_eq!(classify(&path("HashMap", vec![named("String")]), false), Shape::Leaf);
    assert_eq!(
        classify(&path("HashMap", vec![named("String"), named("u8"), named("S")]), false),
        Shape::Leaf
    );
    assert_eq!(classify(&path("Lookup", vec![named("String"), named("u8")]), false), Shape::Leaf);
}

#[test]
fn other_generic_is_a_leaf() {
    assert_eq!(classify(&path("Vec", vec![named("String")]), false), Shape::Leaf);
    assert_eq!(classify(&path("Vec", vec![named("ServerConfig")]), false), Shape::Leaf);
    assert_eq!(classify(&path("Box", vec![named("ServerConfig")]), false), Shape::Leaf);
    assert_eq!(classify(&path("Option", vec![named("A"), named("B")]), false), Shape::Leaf);
    assert!(!is_section_type(&path("Vec", vec![named("ServerConfig")])));
}

#[test]
fn type_that_is_no_path_is_a_leaf() {
    assert_eq!(classify(&FieldType::Other, false), Shape::Leaf);
    assert!(!is_section_type(&FieldType::Other));
    assert!(!is_option_type(&FieldType::Other));
}

#[test]
fn option_without_arguments_is_a_named_type() {
    assert_eq!(classify(&named("Option"), false), Shape::Section);
    assert!(!is_option_type(&named("Option")));
    assert!(is_section_type(&named("Option")));
}

#[test]
fn option_type_is_recognised_by_name_and_argument() {
    assert!(is_option_type(&option(named("String"))));
    assert!(is_option_type(&option(named("ServerConfig"))));
    assert!(!is_option_type(&named("String")));
    assert!(!is_option_type(&path("Vec", vec![named("String")])));
    assert!(!is_option_type(&path("option", vec![named("String")])));
    assert!(!is_section_type(&option(named("ServerConfig"))));
}

#[test]
fn derive_classifies_each_field_in_order() {
    let td = derive_toml_comment(StructDecl {
        documentation: vec![" A type".to_string(), String::new()],
        fields: vec![
            decl("a", named("u8"), false, None),
            decl("b", named("Inner"), false, Some(empty_type())),
            decl("c", named("Inner"), true, None),
            decl("d", option(named("Inner")), false, None),
            decl("e", map("HashMap", named("Inner")), false, None),
        ],
    })
    .unwrap();
    assert_eq!(td.type_documentation, vec![" A type".to_string(), String::new()]);
    let names: Vec<&str> = td.fields.iter().map(|f| f.name.as_str()).collect();
    assert_eq!(names, vec!["a", "b", "c", "d", "e"]);
    assert_eq!(td.fields[0].shape, Shape::Leaf);
    assert_eq!(td.fields[1].shape, Shape::Section);
    assert_eq!(td.fields[2].shape, Shape::Inline);
    assert_eq!(td.fields[3].shape, optional(Shape::Leaf));
    assert_eq!(td.fields[4].shape, mapping(Shape::Leaf));
    assert_eq!(td.fields[0].documentation, vec![" about a".to_string()]);
    assert_eq!(td.fields[4].documentation, vec![" about e".to_string()]);
    assert_eq!(td.fields[1].nested, Some(empty_type()));
    assert!(td.is_well_formed());
}

#[test]
fn derive_keeps_a_description_only_for_sections() {
    let td = derive_toml_comment(StructDecl {
        documentation: Vec::new(),
        fields: vec![
            decl("a", named("u8"), false, Some(empty_type())),
            decl("b", named("Inner"), true, Some(empty_type())),
            decl("c", option(named("Inner")), false, Some(empty_type())),
        ],
    })
    .unwrap();
    assert_eq!(td.fields[0].nested, None);
    assert_eq!(td.fields[1].nested, None);
    assert_eq!(td.fields[2].nested, None);
}

#[test]
fn derive_names_the_first_section_without_description() {
    let outcome = derive_toml_comment(StructDecl {
        documentation: Vec::new(),
        fields: vec![
            decl("a", named("u8"), false, None),
            decl("b", named("Inner"), false, Some(empty_type())),
            decl("c", named("Inner"), false, None),
            decl("d", named("Other"), false, None),
        ],
    });
    assert_eq!(outcome, Err(SchemaError::MissingDescriptor { field: 2 }));
}

#[test]
fn derive_of_no_fields() {
    let td = derive_toml_comment(StructDecl { documentation: Vec::new(), fields: Vec::new() })
        .unwrap();
    assert_eq!(td, empty_type());
}

#[test]
fn well_formedness_follows_the_sections() {
    let leaf = toml_comment::SchemaNode {
        name: "a".to_string(),
        shape: Shape::Leaf,
        documentation: Vec::new(),
        nested: None,
    };
    assert!(leaf.is_well_formed());
    let bare = toml_comment::SchemaNode {
        name: "b".to_string(),
        shape: optional(mapping(Shape::Section)),
        documentation: Vec::new(),
        nested: None,
    };
    assert!(!bare.is_well_formed());
    let deep = TypeDescriptor {
        type_documentation: Vec::new(),
        fields: vec![toml_comment::SchemaNode {
            name: "c".to_string(),
            shape: Shape::Section,
            documentation: Vec::new(),
            nested: Some(TypeDescriptor { type_documentation: Vec::new(), fields: vec![bare] }),
        }],
    };
    assert!(!deep.is_well_formed());
    assert!(TypeDescriptor { type_documentation: Vec::new(), fields: vec![leaf] }
        .is_well_formed());
}

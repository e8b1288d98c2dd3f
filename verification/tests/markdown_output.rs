use compositor::markdown::{Kind, MarkdownGenerator, TypeDefinition};

fn def(kind: Kind) -> TypeDefinition {
    TypeDefinition {
        name: None,
        is_optional: false,
        kind,
    }
}

fn optional(kind: Kind) -> TypeDefinition {
    TypeDefinition {
        name: None,
        is_optional: true,
        kind,
    }
}

fn render(d: &TypeDefinition) -> String {
    let mut g = MarkdownGenerator::new();
    g.write_type_definition(d);
    String::from_utf8(g.output).unwrap()
}

#[test]
fn primitives_render_as_their_names() {
    assert_eq!(render(&def(Kind::Null)), "null");
    assert_eq!(render(&def(Kind::I32)), "i32");
    assert_eq!(render(&def(Kind::F32)), "f32");
    assert_eq!(render(&def(Kind::F64)), "f64");
    assert_eq!(render(&def(Kind::U32)), "u32");
    assert_eq!(render(&def(Kind::U16)), "u16");
    assert_eq!(render(&def(Kind::U8)), "u8");
    assert_eq!(render(&def(Kind::Bool)), "bool");
}

#[test]
fn refs_and_strings_render_verbatim() {
    assert_eq!(render(&def(Kind::Ref(String::from("Resolution")))), "Resolution");
    assert_eq!(
        render(&def(Kind::String { specific_value: None })),
        "string"
    );
    assert_eq!(
        render(&def(Kind::String {
            specific_value: Some(String::from("\"stretch\""))
        })),
        "\"stretch\""
    );
}

#[test]
fn tuples_join_members_with_commas() {
    let d = def(Kind::Tuple(vec![def(Kind::I32), def(Kind::Bool), def(Kind::U8)]));
    assert_eq!(render(&d), "[i32, bool, u8]");
    assert_eq!(render(&def(Kind::Tuple(vec![]))), "[]");
}

#[test]
fn arrays_append_brackets() {
    let d = def(Kind::Array {
        array_type: Box::new(def(Kind::U32)),
    });
    assert_eq!(render(&d), "u32[]");
}

#[test]
fn maps_render_with_string_keys() {
    let d = def(Kind::StringMap {
        value_type: Box::new(def(Kind::Bool)),
    });
    assert_eq!(render(&d), "Map<string, bool>");
}

#[test]
fn short_unions_stay_on_one_line() {
    let d = def(Kind::Union(vec![def(Kind::I32), def(Kind::Bool)]));
    assert_eq!(render(&d), "i32 | bool");
}

#[test]
fn long_unions_break_one_variant_per_line() {
    let long_ref = |s: &str| def(Kind::Ref(String::from(s)));
    let d = def(Kind::Union(vec![
        long_ref("AVeryLongVariantTypeNameNumberOne"),
        long_ref("AVeryLongVariantTypeNameNumberTwo"),
    ]));
    assert_eq!(
        render(&d),
        "\n  | AVeryLongVariantTypeNameNumberOne\n  | AVeryLongVariantTypeNameNumberTwo"
    );
}

#[test]
fn short_objects_stay_on_one_line() {
    let d = def(Kind::Object {
        fields: vec![
            (String::from("width"), def(Kind::U32)),
            (String::from("height"), def(Kind::U32)),
        ],
    });
    assert_eq!(render(&d), "{ width: u32; height: u32; }");
}

#[test]
fn optional_fields_carry_a_question_mark() {
    let d = def(Kind::Object {
        fields: vec![(String::from("alpha"), optional(Kind::U8))],
    });
    assert_eq!(render(&d), "{ alpha?: u8; }");
}

#[test]
fn long_objects_break_one_field_per_line() {
    let d = def(Kind::Object {
        fields: vec![
            (String::from("background_color_rgba"), def(Kind::Ref(String::from("RGBAColor")))),
            (String::from("resolution"), def(Kind::Ref(String::from("Resolution")))),
        ],
    });
    assert_eq!(
        render(&d),
        "{\n  background_color_rgba: RGBAColor;\n  resolution: Resolution;\n}"
    );
}

#[test]
fn field_names_render_with_their_optionality_marker() {
    let mut g = MarkdownGenerator::new();
    g.write_field_name("width", false);
    g.write_field_name("alpha", true);
    assert_eq!(String::from_utf8(g.output).unwrap(), "width: alpha?: ");
}

#[test]
fn single_line_union_joins_with_pipes_even_when_long() {
    let mut g = MarkdownGenerator::new();
    let variants = vec![
        def(Kind::Ref(String::from("AVeryLongVariantTypeNameNumberOne"))),
        def(Kind::Ref(String::from("AVeryLongVariantTypeNameNumberTwo"))),
    ];
    g.write_single_line_union(&variants);
    assert_eq!(
        String::from_utf8(g.output).unwrap(),
        "AVeryLongVariantTypeNameNumberOne | AVeryLongVariantTypeNameNumberTwo"
    );
}

#[test]
fn nested_multi_line_objects_indent_two_spaces_per_level() {
    let inner = def(Kind::Object {
        fields: vec![
            (String::from("first_long_field_name"), def(Kind::Ref(String::from("FirstTypeName")))),
            (String::from("second_long_field_name"), def(Kind::Ref(String::from("SecondTypeName")))),
        ],
    });
    let outer = def(Kind::Object {
        fields: vec![(String::from("inner_object_field_with_a_long_name"), inner)],
    });
    assert_eq!(
        render(&outer),
        "{\n  inner_object_field_with_a_long_name: {\n    first_long_field_name: FirstTypeName;\n    second_long_field_name: SecondTypeName;\n  };\n}"
    );
}

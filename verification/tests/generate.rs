use tser::block::{flatten, Block};
use tser::codegen::{
    generate, type_expr_to_string, CodeGen, Enum, EnumValueType, GenerateError, Struct, Union,
    UnionKind,
};
use tser::decimal::i64_decimal;
use tser::ir;

/// A small backend with an explicit mapping for every capability.
struct TestBackend;

impl CodeGen for TestBackend {
    // The specification members exist only for the verifier; nothing
    // ever calls them at run time.
    fn head_spec(&self) -> vstd::seq::Seq<tser::block::LineShape> {
        panic!("specification member")
    }

    fn identifier_spec(&self, _id: vstd::seq::Seq<char>) -> vstd::seq::Seq<char> {
        panic!("specification member")
    }

    fn primitive_spec(&self, _primitive: ir::Primitive) -> vstd::seq::Seq<char> {
        panic!("specification member")
    }

    fn array_spec(&self, _elem: vstd::seq::Seq<char>) -> vstd::seq::Seq<char> {
        panic!("specification member")
    }

    fn optional_spec(&self, _unwrapped: vstd::seq::Seq<char>) -> vstd::seq::Seq<char> {
        panic!("specification member")
    }

    fn struct_decl_spec(&self, _s: tser::codegen::StructShape) -> vstd::seq::Seq<tser::block::LineShape> {
        panic!("specification member")
    }

    fn enum_decl_spec(&self, _e: tser::codegen::EnumShape) -> vstd::seq::Seq<tser::block::LineShape> {
        panic!("specification member")
    }

    fn union_decl_spec(&self, _u: tser::codegen::UnionShape) -> vstd::seq::Seq<tser::block::LineShape> {
        panic!("specification member")
    }

    fn head(&self) -> Block {
        Block::line("// generated")
    }

    fn identifier_expr(&self, id: &str) -> String {
        id.to_string()
    }

    fn primitive_expr(&self, primitive: ir::Primitive) -> String {
        match primitive {
            ir::Primitive::Bool => "bool".to_string(),
            ir::Primitive::Num => "number".to_string(),
            ir::Primitive::Str => "string".to_string(),
        }
    }

    fn array_expr(&self, elem: &str) -> String {
        format!("Array<{}>", elem)
    }

    fn optional_expr(&self, unwrapped: &str) -> String {
        format!("Option<{}>", unwrapped)
    }

    fn struct_decl(&self, struct_: Struct) -> Block {
        let mut fields = Block::Empty;
        for (name, ty) in &struct_.fields {
            fields = Block::pair(fields, Block::line(&format!("{}: {},", name, ty)));
        }
        Block::pair(
            Block::pair(
                Block::line(&format!("struct {} {{", struct_.name)),
                Block::nest(fields),
            ),
            Block::line("}"),
        )
    }

    fn enum_decl(&self, enum_: Enum) -> Block {
        let mut members = Block::Empty;
        for (name, value) in &enum_.values {
            let rendered = match enum_.value_type {
                EnumValueType::Integer => format!("{} = {},", name, value),
                EnumValueType::Str => format!("{} = \"{}\",", name, value),
            };
            members = Block::pair(members, Block::line(&rendered));
        }
        Block::pair(
            Block::pair(
                Block::line(&format!("enum {} {{", enum_.name)),
                Block::nest(members),
            ),
            Block::line("}"),
        )
    }

    fn union_decl(&self, union: Union) -> Block {
        let mut body = Block::Empty;
        match &union.kind {
            UnionKind::ExternallyTagged(variants) => {
                for (name, ty) in variants {
                    body = Block::pair(body, Block::line(&format!("{}({}),", name, ty)));
                }
            }
            UnionKind::InternallyTagged { tag_field, variants } => {
                body = Block::pair(body, Block::line(&format!("tag: {},", tag_field)));
                for variant in variants {
                    body = Block::pair(body, self.struct_decl(variant_clone(variant)));
                }
            }
        }
        Block::pair(
            Block::pair(
                Block::line(&format!("union {} {{", union.name)),
                Block::nest(body),
            ),
            Block::line("}"),
        )
    }
}

fn variant_clone(s: &Struct) -> Struct {
    Struct {
        name: s.name.clone(),
        fields: s.fields.clone(),
    }
}

fn string_primitive(nullable: bool) -> ir::TypeExpr {
    ir::TypeExpr {
        nullable,
        kind: ir::TypeExprKind::Primitive(ir::Primitive::Str),
    }
}

fn hello_struct() -> ir::Struct {
    ir::Struct {
        name: "Hello".to_string(),
        fields: vec![ir::Field {
            name: "foo".to_string(),
            optional: false,
            ty: string_primitive(false),
        }],
    }
}

fn color_enum() -> ir::Enum {
    ir::Enum {
        name: "Color".to_string(),
        kind: ir::EnumKind::Integers(vec![
            ir::IntegerEnumMember { name: "Red".to_string(), value: 1 },
            ir::IntegerEnumMember { name: "Blue".to_string(), value: -2 },
        ]),
    }
}

#[test]
fn nullable_array_of_nullable_primitive_wraps_twice() {
    let te = ir::TypeExpr {
        nullable: true,
        kind: ir::TypeExprKind::ArrayOf(Box::new(string_primitive(true))),
    };
    let rendered = type_expr_to_string(&te, &TestBackend);
    assert_eq!(rendered, "Option<Array<Option<string>>>");
    assert_eq!(rendered.matches("Option<").count(), 2);
}

#[test]
fn nullable_array_of_plain_primitive_wraps_once() {
    let te = ir::TypeExpr {
        nullable: true,
        kind: ir::TypeExprKind::ArrayOf(Box::new(string_primitive(false))),
    };
    assert_eq!(type_expr_to_string(&te, &TestBackend), "Option<Array<string>>");
}

#[test]
fn generate_renders_head_first_and_one_blank_line_between_items() {
    let file = ir::File {
        items: vec![
            ir::Item::TypeDecl(ir::TypeDecl::Struct(hello_struct())),
            ir::Item::TypeDecl(ir::TypeDecl::Enum(color_enum())),
        ],
    };
    let text = generate(&file, &TestBackend).unwrap();
    assert_eq!(
        text,
        "// generated\n\
         struct Hello {\n    foo: string,\n}\n\n\
         enum Color {\n    Red = 1,\n    Blue = -2,\n}\n\n"
    );
    let lines: Vec<&str> = text.split('\n').collect();
    assert_eq!(lines[0], "// generated");
    let blank_between = lines
        .iter()
        .skip(1)
        .take_while(|l| **l != "enum Color {")
        .filter(|l| l.is_empty())
        .count();
    assert_eq!(blank_between, 1);
}

#[test]
fn generate_refuses_service_items() {
    let file = ir::File {
        items: vec![
            ir::Item::TypeDecl(ir::TypeDecl::Struct(hello_struct())),
            ir::Item::Service(ir::Service { name: "Greeter".to_string() }),
        ],
    };
    assert_eq!(
        generate(&file, &TestBackend),
        Err(GenerateError::UnsupportedDeclaration)
    );
}

#[test]
fn generate_is_deterministic() {
    let file = ir::File {
        items: vec![
            ir::Item::TypeDecl(ir::TypeDecl::Enum(color_enum())),
            ir::Item::TypeDecl(ir::TypeDecl::Struct(hello_struct())),
        ],
    };
    let first = generate(&file, &TestBackend).unwrap();
    let second = generate(&file, &TestBackend).unwrap();
    assert_eq!(first, second);
}

#[test]
fn integer_enum_values_are_emitted_in_canonical_decimal() {
    let e = ir::Enum {
        name: "Edge".to_string(),
        kind: ir::EnumKind::Integers(vec![
            ir::IntegerEnumMember { name: "Zero".to_string(), value: 0 },
            ir::IntegerEnumMember { name: "Low".to_string(), value: -5 },
            ir::IntegerEnumMember { name: "Max".to_string(), value: i64::MAX },
            ir::IntegerEnumMember { name: "Min".to_string(), value: i64::MIN },
        ]),
    };
    let rendered = Enum::from_ir(&e, &TestBackend);
    assert_eq!(rendered.value_type, EnumValueType::Integer);
    assert_eq!(rendered.values[0], ("Zero".to_string(), "0".to_string()));
    assert_eq!(rendered.values[1], ("Low".to_string(), "-5".to_string()));
    assert_eq!(
        rendered.values[2],
        ("Max".to_string(), "9223372036854775807".to_string())
    );
    assert_eq!(
        rendered.values[3],
        ("Min".to_string(), "-9223372036854775808".to_string())
    );
}

#[test]
fn string_enum_values_are_emitted_byte_for_byte() {
    let e = ir::Enum {
        name: "Raw".to_string(),
        kind: ir::EnumKind::Strings(vec![
            ir::StringEnumMember { name: "A".to_string(), value: "MiXeD CaSe".to_string() },
            ir::StringEnumMember { name: "B".to_string(), value: "  padded  ".to_string() },
        ]),
    };
    let rendered = Enum::from_ir(&e, &TestBackend);
    assert_eq!(rendered.value_type, EnumValueType::Str);
    assert_eq!(rendered.values[0].1, "MiXeD CaSe");
    assert_eq!(rendered.values[1].1, "  padded  ");
}

#[test]
fn union_conversion_keeps_variant_order() {
    let u = ir::Union {
        name: "Shape".to_string(),
        kind: ir::UnionKind::ExternallyTagged(vec![
            ("circle".to_string(), string_primitive(false)),
            (
                "squares".to_string(),
                ir::TypeExpr {
                    nullable: false,
                    kind: ir::TypeExprKind::ArrayOf(Box::new(string_primitive(false))),
                },
            ),
        ]),
    };
    let rendered = Union::from_ir(&u, &TestBackend);
    match rendered.kind {
        UnionKind::ExternallyTagged(vs) => {
            assert_eq!(vs[0], ("circle".to_string(), "string".to_string()));
            assert_eq!(vs[1], ("squares".to_string(), "Array<string>".to_string()));
        }
        UnionKind::InternallyTagged { .. } => panic!("expected an externally tagged union"),
    }
}

#[test]
fn generate_over_an_empty_file_yields_only_the_head() {
    let file = ir::File { items: vec![] };
    assert_eq!(generate(&file, &TestBackend).unwrap(), "// generated\n");
}

#[test]
fn parsed_declaration_renders_end_to_end() {
    let decl = tser::frontend::SrcStructDecl {
        name: "Point".to_string(),
        type_params: None,
        extends: vec![],
        members: vec![
            tser::frontend::SrcMember::Property {
                name: "x".to_string(),
                optional: false,
                ann: tser::frontend::SrcTypeAnn::Keyword(ir::Primitive::Num),
            },
            tser::frontend::SrcMember::Property {
                name: "tags".to_string(),
                optional: true,
                ann: tser::frontend::SrcTypeAnn::Nullable(Box::new(
                    tser::frontend::SrcTypeAnn::Array(Box::new(
                        tser::frontend::SrcTypeAnn::Keyword(ir::Primitive::Str),
                    )),
                )),
            },
        ],
    };
    let parsed = tser::frontend::parse_struct(&decl).unwrap();
    let file = ir::File {
        items: vec![ir::Item::TypeDecl(ir::TypeDecl::Struct(parsed))],
    };
    assert_eq!(
        generate(&file, &TestBackend).unwrap(),
        "// generated\nstruct Point {\n    x: number,\n    tags: Option<Array<string>>,\n}\n\n"
    );
}

#[test]
fn decimal_rendering_matches_expected_digits() {
    assert_eq!(i64_decimal(0), "0");
    assert_eq!(i64_decimal(10), "10");
    assert_eq!(i64_decimal(-1), "-1");
    assert_eq!(i64_decimal(1234567890), "1234567890");
}

#[test]
fn block_rendering_indents_four_spaces_per_level() {
    let b = Block::pair(
        Block::line("a"),
        Block::nest(Block::pair(Block::line("b"), Block::nest(Block::line("c")))),
    );
    assert_eq!(b.string(), "a\n    b\n        c\n");
}

#[test]
fn flatten_bakes_indentation_and_keeps_text() {
    let b = Block::pair(Block::line("a"), Block::nest(Block::line("b")));
    let flat = flatten(&b);
    assert_eq!(flat.string(), b.string());
    let nested_again = Block::nest(flat);
    assert_eq!(nested_again.string(), "    a\n        b\n");
}

use tser::frontend::{
    parse_enum, parse_struct, parse_to_type_expr, parse_union, Span, SrcEnumDecl, SrcEnumMember,
    SrcEnumValue, SrcMember, SrcStructDecl, SrcTypeAnn, SrcUnionDecl, SrcUnionShape,
    StructureError,
};
use tser::ir::{EnumKind, Field, Primitive, Struct, TypeExpr, TypeExprKind, UnionKind};

fn span(lo: u32, hi: u32) -> Span {
    Span { lo, hi }
}

/// The declaration `interface Hello { foo: string }`, as the black-box
/// source parser hands it over.
fn hello_decl(optional: bool) -> SrcStructDecl {
    SrcStructDecl {
        name: "Hello".to_string(),
        type_params: None,
        extends: vec![],
        members: vec![SrcMember::Property {
            name: "foo".to_string(),
            optional,
            ann: SrcTypeAnn::Keyword(Primitive::Str),
        }],
    }
}

#[test]
fn test_ts_interface_struct() {
    assert_eq!(
        parse_struct(&hello_decl(false)).unwrap(),
        Struct {
            name: "Hello".to_string(),
            fields: vec![Field {
                name: "foo".to_string(),
                ty: TypeExpr {
                    nullable: false,
                    kind: TypeExprKind::Primitive(Primitive::Str),
                },
                optional: false
            }]
        }
    );
}

#[test]
fn test_ts_interface_struct_optional() {
    assert_eq!(
        parse_struct(&hello_decl(true)).unwrap().fields.first().unwrap().optional,
        true
    );
}

#[test]
fn struct_with_type_params_is_rejected_at_their_span() {
    let decl = SrcStructDecl {
        type_params: Some(span(15, 18)),
        ..hello_decl(false)
    };
    assert_eq!(
        parse_struct(&decl),
        Err(StructureError::UnsupportedSyntax(span(15, 18)))
    );
}

#[test]
fn struct_with_extends_is_rejected_at_first_extension_span() {
    let decl = SrcStructDecl {
        extends: vec![span(24, 28), span(30, 35)],
        ..hello_decl(false)
    };
    assert_eq!(
        parse_struct(&decl),
        Err(StructureError::UnsupportedSyntax(span(24, 28)))
    );
}

#[test]
fn struct_member_that_is_no_property_is_rejected() {
    let mut decl = hello_decl(false);
    decl.members.push(SrcMember::Other(span(40, 52)));
    assert_eq!(
        parse_struct(&decl),
        Err(StructureError::UnsupportedSyntax(span(40, 52)))
    );
}

#[test]
fn resolver_maps_nested_annotations() {
    let ann = SrcTypeAnn::Nullable(Box::new(SrcTypeAnn::Array(Box::new(SrcTypeAnn::Nullable(
        Box::new(SrcTypeAnn::Keyword(Primitive::Num)),
    )))));
    let expected = TypeExpr {
        nullable: true,
        kind: TypeExprKind::ArrayOf(Box::new(TypeExpr {
            nullable: true,
            kind: TypeExprKind::Primitive(Primitive::Num),
        })),
    };
    assert_eq!(parse_to_type_expr(&ann).unwrap(), expected);
}

#[test]
fn resolver_keeps_identifiers_opaque() {
    let ann = SrcTypeAnn::Name("Other".to_string());
    assert_eq!(
        parse_to_type_expr(&ann).unwrap(),
        TypeExpr {
            nullable: false,
            kind: TypeExprKind::Identifier("Other".to_string()),
        }
    );
}

#[test]
fn resolver_reports_unsupported_annotation_span() {
    let ann = SrcTypeAnn::Array(Box::new(SrcTypeAnn::Other(span(7, 9))));
    assert_eq!(
        parse_to_type_expr(&ann),
        Err(StructureError::UnsupportedSyntax(span(7, 9)))
    );
}

fn int_member(name: &str, value: i64, lo: u32) -> SrcEnumMember {
    SrcEnumMember {
        name: name.to_string(),
        value: SrcEnumValue::Integer(value),
        span: span(lo, lo + 1),
    }
}

fn text_member(name: &str, value: &str, lo: u32) -> SrcEnumMember {
    SrcEnumMember {
        name: name.to_string(),
        value: SrcEnumValue::Text(value.to_string()),
        span: span(lo, lo + 1),
    }
}

#[test]
fn enum_of_integers_parses() {
    let decl = SrcEnumDecl {
        name: "Code".to_string(),
        members: vec![int_member("Ok", 0, 10), int_member("Gone", -7, 20)],
    };
    let parsed = parse_enum(&decl).unwrap();
    assert_eq!(parsed.name, "Code");
    match parsed.kind {
        EnumKind::Integers(ms) => {
            assert_eq!(ms.len(), 2);
            assert_eq!(ms[0].name, "Ok");
            assert_eq!(ms[0].value, 0);
            assert_eq!(ms[1].name, "Gone");
            assert_eq!(ms[1].value, -7);
        }
        EnumKind::Strings(_) => panic!("expected integer members"),
    }
}

#[test]
fn enum_of_strings_parses() {
    let decl = SrcEnumDecl {
        name: "Color".to_string(),
        members: vec![text_member("Red", "red", 10), text_member("Blue", "BLUE", 20)],
    };
    let parsed = parse_enum(&decl).unwrap();
    match parsed.kind {
        EnumKind::Strings(ms) => {
            assert_eq!(ms[0].value, "red");
            assert_eq!(ms[1].value, "BLUE");
        }
        EnumKind::Integers(_) => panic!("expected string members"),
    }
}

#[test]
fn enum_with_no_members_is_integer_kind() {
    let decl = SrcEnumDecl { name: "Empty".to_string(), members: vec![] };
    let parsed = parse_enum(&decl).unwrap();
    match parsed.kind {
        EnumKind::Integers(ms) => assert_eq!(ms.len(), 0),
        EnumKind::Strings(_) => panic!("expected the integer kind"),
    }
}

#[test]
fn enum_mixing_value_kinds_is_rejected_at_first_mismatch() {
    let decl = SrcEnumDecl {
        name: "Mixed".to_string(),
        members: vec![
            int_member("A", 1, 10),
            int_member("B", 2, 20),
            text_member("C", "c", 30),
        ],
    };
    assert_eq!(
        parse_enum(&decl),
        Err(StructureError::UnsupportedSyntax(span(30, 31)))
    );
}

#[test]
fn externally_tagged_union_parses() {
    let decl = SrcUnionDecl {
        name: "Shape".to_string(),
        shape: SrcUnionShape::ExternallyTagged(vec![
            ("circle".to_string(), SrcTypeAnn::Keyword(Primitive::Num)),
            ("label".to_string(), SrcTypeAnn::Name("Label".to_string())),
        ]),
    };
    let parsed = parse_union(&decl).unwrap();
    assert_eq!(parsed.name, "Shape");
    match parsed.kind {
        UnionKind::ExternallyTagged(vs) => {
            assert_eq!(vs.len(), 2);
            assert_eq!(vs[0].0, "circle");
            assert_eq!(
                vs[0].1,
                TypeExpr { nullable: false, kind: TypeExprKind::Primitive(Primitive::Num) }
            );
            assert_eq!(vs[1].0, "label");
        }
        UnionKind::InternallyTagged(_) => panic!("expected an externally tagged union"),
    }
}

#[test]
fn internally_tagged_union_reuses_struct_frontend() {
    let variant = SrcStructDecl {
        name: "Circle".to_string(),
        type_params: None,
        extends: vec![],
        members: vec![SrcMember::Property {
            name: "kind".to_string(),
            optional: false,
            ann: SrcTypeAnn::Keyword(Primitive::Str),
        }],
    };
    let decl = SrcUnionDecl {
        name: "Shape".to_string(),
        shape: SrcUnionShape::InternallyTagged {
            tag_field: "kind".to_string(),
            variants: vec![variant],
        },
    };
    let parsed = parse_union(&decl).unwrap();
    match parsed.kind {
        UnionKind::InternallyTagged(it) => {
            assert_eq!(it.tag_field, "kind");
            assert_eq!(it.variants.len(), 1);
            assert_eq!(it.variants[0].name, "Circle");
            assert_eq!(it.variants[0].fields[0].name, "kind");
        }
        UnionKind::ExternallyTagged(_) => panic!("expected an internally tagged union"),
    }
}

#[test]
fn internally_tagged_variant_with_generics_is_rejected() {
    let variant = SrcStructDecl {
        name: "Circle".to_string(),
        type_params: Some(span(61, 64)),
        extends: vec![],
        members: vec![],
    };
    let decl = SrcUnionDecl {
        name: "Shape".to_string(),
        shape: SrcUnionShape::InternallyTagged {
            tag_field: "kind".to_string(),
            variants: vec![variant],
        },
    };
    assert_eq!(
        parse_union(&decl),
        Err(StructureError::UnsupportedSyntax(span(61, 64)))
    );
}

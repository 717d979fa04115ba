//! The frontend: maps source declarations into the intermediate
//! representation, enforcing the supported subset of source syntax.
//!
//! The source tokenizer and tree builder are a black box outside this
//! core; the types here hold exactly the shapes the frontend inspects of
//! a declaration — name, type-parameter list, extension clauses, member
//! list, per-member name, optional flag and type annotation — with a
//! source position on every node that can be reported in an error.

use crate::ir;
use vstd::prelude::*;

verus! {

/// A source-position range, attachable to any source node.
#[derive(Clone, Copy, PartialEq, Eq, Structural, Debug)]
pub struct Span {
    pub lo: u32,
    pub hi: u32,
}

/// A structural restriction was violated; the span names the offending
/// source node.
#[derive(Clone, Copy, PartialEq, Eq, Structural, Debug)]
pub enum StructureError {
    UnsupportedSyntax(Span),
}

/// A source type annotation, as far as the resolver inspects it.
#[derive(Debug)]
pub enum SrcTypeAnn {
    /// A primitive keyword annotation.
    Keyword(ir::Primitive),
    /// A bare name annotation.
    Name(String),
    /// An array-syntax annotation around an element annotation.
    Array(Box<SrcTypeAnn>),
    /// A nullable-type annotation around an inner annotation.
    Nullable(Box<SrcTypeAnn>),
    /// Any other annotation shape, with its position.
    Other(Span),
}

/// A member of a struct-like declaration body.
#[derive(Debug)]
pub enum SrcMember {
    /// A plain property: name, optional marker, type annotation.
    Property { name: String, optional: bool, ann: SrcTypeAnn },
    /// Any other member shape (a method, an index signature, ...), with
    /// its position.
    Other(Span),
}

/// A struct-like source declaration, as far as the frontend inspects
/// it.
#[derive(Debug)]
pub struct SrcStructDecl {
    pub name: String,
    /// The span of the type-parameter list, if the declaration has one.
    pub type_params: Option<Span>,
    /// The spans of the extension clauses, in source order.
    pub extends: Vec<Span>,
    pub members: Vec<SrcMember>,
}

/// Whether an annotation lies in the supported subset: primitives,
/// arrays, bare names and nullable wrappers, nothing else.
pub open spec fn spec_ann_supported(ann: SrcTypeAnn) -> bool
    decreases ann,
{
    match ann {
        SrcTypeAnn::Keyword(_) => true,
        SrcTypeAnn::Name(_) => true,
        SrcTypeAnn::Array(e) => spec_ann_supported(*e),
        SrcTypeAnn::Nullable(e) => spec_ann_supported(*e),
        SrcTypeAnn::Other(_) => false,
    }
}

/// The position of the unsupported node inside an annotation; it is
/// meaningful only when the annotation is unsupported.
pub open spec fn spec_ann_bad_span(ann: SrcTypeAnn) -> Span
    decreases ann,
{
    match ann {
        SrcTypeAnn::Array(e) => spec_ann_bad_span(*e),
        SrcTypeAnn::Nullable(e) => spec_ann_bad_span(*e),
        SrcTypeAnn::Other(sp) => sp,
        _ => Span { lo: 0, hi: 0 },
    }
}

/// Whether the type expression resolved from a supported annotation is
/// nullable: exactly when the annotation is a nullable wrapper.
pub open spec fn spec_ann_nullable(ann: SrcTypeAnn) -> bool {
    ann is Nullable
}

/// Whether `k` is the shape that `ann` resolves to, nullability aside:
/// primitive keywords map one to one, array syntax recurses into the
/// element, bare names become identifiers, and a nullable wrapper is
/// transparent.
pub open spec fn spec_ann_kind_resolves(ann: SrcTypeAnn, k: ir::TypeExprKind) -> bool
    decreases ann, 0int,
{
    match ann {
        SrcTypeAnn::Keyword(p) => k == ir::TypeExprKind::Primitive(p),
        SrcTypeAnn::Name(s) => k matches ir::TypeExprKind::Identifier(id) && id@ == s@,
        SrcTypeAnn::Array(e) => k matches ir::TypeExprKind::ArrayOf(et) && spec_resolves_to(
            *e,
            *et,
        ),
        SrcTypeAnn::Nullable(e) => spec_ann_kind_resolves(*e, k),
        SrcTypeAnn::Other(_) => false,
    }
}

/// Whether `t` is exactly the type expression that `ann` resolves to.
pub open spec fn spec_resolves_to(ann: SrcTypeAnn, t: ir::TypeExpr) -> bool
    decreases ann, 1int,
{
    t.nullable == spec_ann_nullable(ann) && spec_ann_kind_resolves(ann, t.kind)
}

/// Resolves a source type annotation into a type expression, or fails
/// with the position of the offending node.  The nullable flag is set
/// on the resolved inner expression rather than adding a shape of its
/// own.
pub fn parse_to_type_expr(ann: &SrcTypeAnn) -> (r: Result<ir::TypeExpr, StructureError>)
    ensures
        r is Ok <==> spec_ann_supported(*ann),
        r matches Ok(t) ==> spec_resolves_to(*ann, t),
        r matches Err(e) ==> e == StructureError::UnsupportedSyntax(spec_ann_bad_span(*ann)),
    decreases *ann,
{
    match ann {
        SrcTypeAnn::Keyword(p) => Ok(
            ir::TypeExpr { nullable: false, kind: ir::TypeExprKind::Primitive(*p) },
        ),
        SrcTypeAnn::Name(s) => Ok(
            ir::TypeExpr { nullable: false, kind: ir::TypeExprKind::Identifier(s.clone()) },
        ),
        SrcTypeAnn::Array(element) => match parse_to_type_expr(element) {
            Ok(elem) => Ok(
                ir::TypeExpr { nullable: false, kind: ir::TypeExprKind::ArrayOf(Box::new(elem)) },
            ),
            Err(err) => Err(err),
        },
        SrcTypeAnn::Nullable(inner) => match parse_to_type_expr(inner) {
            Ok(resolved) => Ok(ir::TypeExpr { nullable: true, kind: resolved.kind }),
            Err(err) => Err(err),
        },
        SrcTypeAnn::Other(sp) => Err(StructureError::UnsupportedSyntax(*sp)),
    }
}

/// Whether a member is a plain property whose annotation is supported.
pub open spec fn spec_member_supported(m: SrcMember) -> bool {
    match m {
        SrcMember::Property { name, optional, ann } => spec_ann_supported(ann),
        SrcMember::Other(_) => false,
    }
}

/// The position reported for an unsupported member.
pub open spec fn spec_member_bad_span(m: SrcMember) -> Span {
    match m {
        SrcMember::Property { name, optional, ann } => spec_ann_bad_span(ann),
        SrcMember::Other(sp) => sp,
    }
}

/// Whether every member of a body is a supported plain property.
pub open spec fn spec_members_supported(ms: Seq<SrcMember>) -> bool {
    forall|i: int| 0 <= i < ms.len() ==> spec_member_supported(#[trigger] ms[i])
}

/// The position reported for a member list: that of its first
/// unsupported member; meaningful only when one exists.
pub open spec fn spec_members_error(ms: Seq<SrcMember>) -> Span
    decreases ms.len(),
{
    if ms.len() == 0 {
        Span { lo: 0, hi: 0 }
    } else if !spec_member_supported(ms[0]) {
        spec_member_bad_span(ms[0])
    } else {
        spec_members_error(ms.drop_first())
    }
}

/// The first unsupported member decides the reported position.
proof fn lemma_members_error(ms: Seq<SrcMember>, i: int)
    requires
        0 <= i < ms.len(),
        forall|j: int| 0 <= j < i ==> spec_member_supported(#[trigger] ms[j]),
        !spec_member_supported(ms[i]),
    ensures
        spec_members_error(ms) == spec_member_bad_span(ms[i]),
    decreases i,
{
    if i == 0 {
    } else {
        let rest = ms.drop_first();
        assert forall|j: int| 0 <= j < i - 1 implies spec_member_supported(#[trigger] rest[j]) by {
            assert(rest[j] == ms[j + 1]);
        }
        assert(rest[i - 1] == ms[i]);
        lemma_members_error(rest, i - 1);
    }
}

/// Whether `f` is the field that the member declares: same name, same
/// optional flag, and the resolved type of the member's annotation.
pub open spec fn spec_field_matches(f: ir::Field, m: SrcMember) -> bool {
    match m {
        SrcMember::Property { name, optional, ann } => {
            &&& f.name@ == name@
            &&& f.optional == optional
            &&& spec_resolves_to(ann, f.ty)
        },
        SrcMember::Other(_) => false,
    }
}

/// Maps the body of a struct-like declaration to its fields: each plain
/// property's name, optional flag and resolved type, in declaration
/// order; fails at the first member that is not a plain property or
/// whose annotation is unsupported.
pub fn parse_ts_interface_body(members: &Vec<SrcMember>) -> (r: Result<
    Vec<ir::Field>,
    StructureError,
>)
    ensures
        r is Ok <==> spec_members_supported(members@),
        r matches Ok(fields) ==> {
            &&& fields@.len() == members@.len()
            &&& forall|i: int|
                0 <= i < members@.len() ==> spec_field_matches(
                    #[trigger] fields@[i],
                    members@[i],
                )
        },
        r matches Err(e) ==> e == StructureError::UnsupportedSyntax(
            spec_members_error(members@),
        ),
{
    let mut fields: Vec<ir::Field> = Vec::new();
    let mut i: usize = 0;
    while i < members.len()
        invariant
            i <= members@.len(),
            fields@.len() == i,
            forall|j: int| 0 <= j < i ==> spec_member_supported(#[trigger] members@[j]),
            forall|j: int|
                0 <= j < i ==> spec_field_matches(#[trigger] fields@[j], members@[j]),
        decreases members@.len() - i,
    {
        match &members[i] {
            SrcMember::Other(sp) => {
                proof {
                    lemma_members_error(members@, i as int);
                }
                return Err(StructureError::UnsupportedSyntax(*sp));
            },
            SrcMember::Property { name, optional, ann } => {
                match parse_to_type_expr(ann) {
                    Err(err) => {
                        proof {
                            lemma_members_error(members@, i as int);
                        }
                        return Err(err);
                    },
                    Ok(ty) => {
                        let field = ir::Field { name: name.clone(), optional: *optional, ty };
                        let ghost fv = field;
                        fields.push(field);
                        proof {
                            assert(fields@[i as int] == fv);
                        }
                    },
                }
            },
        }
        i = i + 1;
    }
    Ok(fields)
}

/// The position reported for a rejected struct-like declaration: its
/// type-parameter list first, else its first extension clause, else its
/// first unsupported member; meaningful only when one exists.
pub open spec fn spec_struct_error(d: SrcStructDecl) -> Span {
    match d.type_params {
        Some(sp) => sp,
        None => if d.extends@.len() > 0 {
            d.extends@[0]
        } else {
            spec_members_error(d.members@)
        },
    }
}

/// Whether a struct-like declaration lies in the supported subset: no
/// type parameters, no extension clauses, every member a supported
/// plain property.
pub open spec fn spec_struct_supported(d: SrcStructDecl) -> bool {
    &&& d.type_params is None
    &&& d.extends@.len() == 0
    &&& spec_members_supported(d.members@)
}

/// Whether `s` is the representation of the declaration `d`: the same
/// name, and the declared fields in declaration order.
pub open spec fn spec_struct_matches(s: ir::Struct, d: SrcStructDecl) -> bool {
    &&& s.name@ == d.name@
    &&& s.fields@.len() == d.members@.len()
    &&& forall|i: int|
        0 <= i < d.members@.len() ==> spec_field_matches(#[trigger] s.fields@[i], d.members@[i])
}

/// Maps a struct-like declaration to its representation.  Generic type
/// parameters are rejected with the parameter list's position, and
/// extension clauses with the first extended type's position: the
/// representation has no generics or inheritance to lower them into.
pub fn parse_struct(ts_interface: &SrcStructDecl) -> (r: Result<ir::Struct, StructureError>)
    ensures
        r is Ok <==> spec_struct_supported(*ts_interface),
        r matches Ok(s) ==> spec_struct_matches(s, *ts_interface),
        r matches Err(e) ==> e == StructureError::UnsupportedSyntax(
            spec_struct_error(*ts_interface),
        ),
{
    if let Some(type_params) = &ts_interface.type_params {
        return Err(StructureError::UnsupportedSyntax(*type_params));
    }
    if ts_interface.extends.len() > 0 {
        return Err(StructureError::UnsupportedSyntax(ts_interface.extends[0]));
    }
    match parse_ts_interface_body(&ts_interface.members) {
        Ok(fields) => Ok(ir::Struct { name: ts_interface.name.clone(), fields }),
        Err(err) => Err(err),
    }
}

/// The declared value of an enum-like member.
#[derive(Debug)]
pub enum SrcEnumValue {
    Integer(i64),
    Text(String),
}

/// A member of an enum-like declaration.
#[derive(Debug)]
pub struct SrcEnumMember {
    pub name: String,
    pub value: SrcEnumValue,
    pub span: Span,
}

/// An enum-like source declaration.
#[derive(Debug)]
pub struct SrcEnumDecl {
    pub name: String,
    pub members: Vec<SrcEnumMember>,
}

/// Whether two member values are of the same kind, both integers or
/// both strings.
pub open spec fn spec_value_kinds_match(a: SrcEnumValue, b: SrcEnumValue) -> bool {
    (a is Integer && b is Integer) || (a is Text && b is Text)
}

/// Whether all members carry values of one kind.
pub open spec fn spec_enum_homogeneous(ms: Seq<SrcEnumMember>) -> bool {
    forall|i: int|
        0 <= i < ms.len() ==> spec_value_kinds_match(#[trigger] ms[i].value, ms[0].value)
}

/// The index of the first member whose value kind differs from the
/// first member's; meaningful only when the list is mixed.
pub open spec fn spec_first_mismatch(ms: Seq<SrcEnumMember>, i: int) -> int
    decreases ms.len() - i,
{
    if i < 0 || i >= ms.len() {
        ms.len() as int
    } else if !spec_value_kinds_match(ms[i].value, ms[0].value) {
        i
    } else {
        spec_first_mismatch(ms, i + 1)
    }
}

/// The first mismatching member decides the reported position.
proof fn lemma_first_mismatch(ms: Seq<SrcEnumMember>, lo: int, i: int)
    requires
        0 <= lo <= i < ms.len(),
        forall|j: int| lo <= j < i ==> spec_value_kinds_match(#[trigger] ms[j].value, ms[0].value),
        !spec_value_kinds_match(ms[i].value, ms[0].value),
    ensures
        spec_first_mismatch(ms, lo) == i,
    decreases i - lo,
{
    if lo < i {
        lemma_first_mismatch(ms, lo + 1, i);
    }
}

/// Maps an enum-like declaration to its representation, classifying the
/// members as all-integer-valued or all-string-valued; a list mixing
/// both kinds is rejected with the position of the first member whose
/// value kind differs from the first member's.  An empty member list
/// yields an integer-kind enum with no members.
pub fn parse_enum(decl: &SrcEnumDecl) -> (r: Result<ir::Enum, StructureError>)
    ensures
        r is Ok <==> spec_enum_homogeneous(decl.members@),
        r matches Ok(e) ==> {
            &&& e.name@ == decl.name@
            &&& (decl.members@.len() == 0 || decl.members@[0].value is Integer) <==> e.kind
                is Integers
            &&& e.kind matches ir::EnumKind::Integers(ms) ==> ms@.len() == decl.members@.len()
                && forall|i: int|
                0 <= i < ms@.len() ==> #[trigger] ms@[i].name@ == decl.members@[i].name@
                    && (decl.members@[i].value matches SrcEnumValue::Integer(v) && ms@[i].value
                    == v)
            &&& e.kind matches ir::EnumKind::Strings(ms) ==> ms@.len() == decl.members@.len()
                && forall|i: int|
                0 <= i < ms@.len() ==> #[trigger] ms@[i].name@ == decl.members@[i].name@
                    && (decl.members@[i].value matches SrcEnumValue::Text(v) && ms@[i].value@
                    == v@)
        },
        r matches Err(e) ==> e == StructureError::UnsupportedSyntax(
            decl.members@[spec_first_mismatch(decl.members@, 1)].span,
        ),
{
    if decl.members.len() == 0 {
        return Ok(
            ir::Enum { name: decl.name.clone(), kind: ir::EnumKind::Integers(Vec::new()) },
        );
    }
    match &decl.members[0].value {
        SrcEnumValue::Integer(_) => {
            let mut out: Vec<ir::IntegerEnumMember> = Vec::new();
            let mut i: usize = 0;
            while i < decl.members.len()
                invariant
                    i <= decl.members@.len(),
                    decl.members@.len() > 0,
                    decl.members@[0].value is Integer,
                    out@.len() == i,
                    forall|j: int|
                        0 <= j < i ==> spec_value_kinds_match(
                            #[trigger] decl.members@[j].value,
                            decl.members@[0].value,
                        ),
                    forall|j: int|
                        0 <= j < i ==> #[trigger] out@[j].name@ == decl.members@[j].name@
                            && (decl.members@[j].value matches SrcEnumValue::Integer(v)
                            && out@[j].value == v),
                decreases decl.members@.len() - i,
            {
                let m = &decl.members[i];
                match &m.value {
                    SrcEnumValue::Integer(v) => {
                        let member = ir::IntegerEnumMember { name: m.name.clone(), value: *v };
                        let ghost mv = member;
                        out.push(member);
                        proof {
                            assert(out@[i as int] == mv);
                        }
                    },
                    SrcEnumValue::Text(_) => {
                        proof {
                            lemma_first_mismatch(decl.members@, 1, i as int);
                        }
                        return Err(StructureError::UnsupportedSyntax(m.span));
                    },
                }
                i = i + 1;
            }
            Ok(ir::Enum { name: decl.name.clone(), kind: ir::EnumKind::Integers(out) })
        },
        SrcEnumValue::Text(_) => {
            let mut out: Vec<ir::StringEnumMember> = Vec::new();
            let mut i: usize = 0;
            while i < decl.members.len()
                invariant
                    i <= decl.members@.len(),
                    decl.members@.len() > 0,
                    decl.members@[0].value is Text,
                    out@.len() == i,
                    forall|j: int|
                        0 <= j < i ==> spec_value_kinds_match(
                            #[trigger] decl.members@[j].value,
                            decl.members@[0].value,
                        ),
                    forall|j: int|
                        0 <= j < i ==> #[trigger] out@[j].name@ == decl.members@[j].name@
                            && (decl.members@[j].value matches SrcEnumValue::Text(v)
                            && out@[j].value@ == v@),
                decreases decl.members@.len() - i,
            {
                let m = &decl.members[i];
                match &m.value {
                    SrcEnumValue::Text(v) => {
                        let member = ir::StringEnumMember { name: m.name.clone(), value: v.clone() };
                        let ghost mv = member;
                        out.push(member);
                        proof {
                            assert(out@[i as int] == mv);
                        }
                    },
                    SrcEnumValue::Integer(_) => {
                        proof {
                            lemma_first_mismatch(decl.members@, 1, i as int);
                        }
                        return Err(StructureError::UnsupportedSyntax(m.span));
                    },
                }
                i = i + 1;
            }
            Ok(ir::Enum { name: decl.name.clone(), kind: ir::EnumKind::Strings(out) })
        },
    }
}

/// A union-like source declaration's shape, already classified by the
/// declaration's own tagging convention.
#[derive(Debug)]
pub enum SrcUnionShape {
    /// Variant labels paired with payload type annotations.
    ExternallyTagged(Vec<(String, SrcTypeAnn)>),
    /// A tag field name and the struct-shaped variant declarations.
    InternallyTagged { tag_field: String, variants: Vec<SrcStructDecl> },
}

/// A union-like source declaration.
#[derive(Debug)]
pub struct SrcUnionDecl {
    pub name: String,
    pub shape: SrcUnionShape,
}

/// The position reported for a list of externally tagged variants: that
/// of the first unsupported payload annotation.
pub open spec fn spec_payloads_error(vs: Seq<(String, SrcTypeAnn)>) -> Span
    decreases vs.len(),
{
    if vs.len() == 0 {
        Span { lo: 0, hi: 0 }
    } else if !spec_ann_supported(vs[0].1) {
        spec_ann_bad_span(vs[0].1)
    } else {
        spec_payloads_error(vs.drop_first())
    }
}

/// The first unsupported payload decides the reported position.
proof fn lemma_payloads_error(vs: Seq<(String, SrcTypeAnn)>, i: int)
    requires
        0 <= i < vs.len(),
        forall|j: int| 0 <= j < i ==> spec_ann_supported(#[trigger] vs[j].1),
        !spec_ann_supported(vs[i].1),
    ensures
        spec_payloads_error(vs) == spec_ann_bad_span(vs[i].1),
    decreases i,
{
    if i > 0 {
        let rest = vs.drop_first();
        assert forall|j: int| 0 <= j < i - 1 implies spec_ann_supported(#[trigger] rest[j].1) by {
            assert(rest[j] == vs[j + 1]);
        }
        assert(rest[i - 1] == vs[i]);
        lemma_payloads_error(rest, i - 1);
    }
}

/// The position reported for a list of internally tagged variants: that
/// of the first variant declaration outside the supported subset.
pub open spec fn spec_variants_error(vs: Seq<SrcStructDecl>) -> Span
    decreases vs.len(),
{
    if vs.len() == 0 {
        Span { lo: 0, hi: 0 }
    } else if !spec_struct_supported(vs[0]) {
        spec_struct_error(vs[0])
    } else {
        spec_variants_error(vs.drop_first())
    }
}

/// The first unsupported variant decides the reported position.
proof fn lemma_variants_error(vs: Seq<SrcStructDecl>, i: int)
    requires
        0 <= i < vs.len(),
        forall|j: int| 0 <= j < i ==> spec_struct_supported(#[trigger] vs[j]),
        !spec_struct_supported(vs[i]),
    ensures
        spec_variants_error(vs) == spec_struct_error(vs[i]),
    decreases i,
{
    if i > 0 {
        let rest = vs.drop_first();
        assert forall|j: int| 0 <= j < i - 1 implies spec_struct_supported(#[trigger] rest[j]) by {
            assert(rest[j] == vs[j + 1]);
        }
        assert(rest[i - 1] == vs[i]);
        lemma_variants_error(rest, i - 1);
    }
}

/// Whether a union-like declaration lies in the supported subset.
pub open spec fn spec_union_supported(d: SrcUnionDecl) -> bool {
    match d.shape {
        SrcUnionShape::ExternallyTagged(vs) => forall|i: int|
            0 <= i < vs@.len() ==> spec_ann_supported(#[trigger] vs@[i].1),
        SrcUnionShape::InternallyTagged { tag_field, variants } => forall|i: int|
            0 <= i < variants@.len() ==> spec_struct_supported(#[trigger] variants@[i]),
    }
}

/// The position reported for a rejected union-like declaration.
pub open spec fn spec_union_error(d: SrcUnionDecl) -> Span {
    match d.shape {
        SrcUnionShape::ExternallyTagged(vs) => spec_payloads_error(vs@),
        SrcUnionShape::InternallyTagged { tag_field, variants } => spec_variants_error(variants@),
    }
}

/// Whether `u` is the representation of the declaration `d`: the same
/// name, the same tagging discipline, and the declared variants in
/// order, with payload annotations resolved and internally tagged
/// variants built by the struct frontend.
pub open spec fn spec_union_matches(u: ir::Union, d: SrcUnionDecl) -> bool {
    &&& u.name@ == d.name@
    &&& match d.shape {
        SrcUnionShape::ExternallyTagged(vs) => u.kind matches ir::UnionKind::ExternallyTagged(ws)
            && ws@.len() == vs@.len() && forall|i: int|
            0 <= i < vs@.len() ==> #[trigger] ws@[i].0@ == vs@[i].0@ && spec_resolves_to(
                vs@[i].1,
                ws@[i].1,
            ),
        SrcUnionShape::InternallyTagged { tag_field, variants } => u.kind matches
            ir::UnionKind::InternallyTagged(it) && it.tag_field@ == tag_field@ && it.variants@.len()
            == variants@.len() && forall|i: int|
            0 <= i < variants@.len() ==> spec_struct_matches(
                #[trigger] it.variants@[i],
                variants@[i],
            ),
    }
}

/// Maps a union-like declaration to its representation.  Externally
/// tagged variants carry arbitrary payload type expressions; internally
/// tagged variants must be struct-shaped, so each one goes through the
/// struct frontend and can fail for the same reasons.
pub fn parse_union(decl: &SrcUnionDecl) -> (r: Result<ir::Union, StructureError>)
    ensures
        r is Ok <==> spec_union_supported(*decl),
        r matches Ok(u) ==> spec_union_matches(u, *decl),
        r matches Err(e) ==> e == StructureError::UnsupportedSyntax(spec_union_error(*decl)),
{
    match &decl.shape {
        SrcUnionShape::ExternallyTagged(variants) => {
            let mut out: Vec<(String, ir::TypeExpr)> = Vec::new();
            let mut i: usize = 0;
            while i < variants.len()
                invariant
                    i <= variants@.len(),
                    decl.shape matches SrcUnionShape::ExternallyTagged(vs) && vs@ == variants@,
                    out@.len() == i,
                    forall|j: int| 0 <= j < i ==> spec_ann_supported(#[trigger] variants@[j].1),
                    forall|j: int|
                        0 <= j < i ==> #[trigger] out@[j].0@ == variants@[j].0@
                            && spec_resolves_to(variants@[j].1, out@[j].1),
                decreases variants@.len() - i,
            {
                let v = &variants[i];
                match parse_to_type_expr(&v.1) {
                    Err(err) => {
                        proof {
                            lemma_payloads_error(variants@, i as int);
                        }
                        return Err(err);
                    },
                    Ok(ty) => {
                        let name = v.0.clone();
                        let ghost nm = name@;
                        let ghost tv = ty;
                        out.push((name, ty));
                        proof {
                            assert(out@[i as int].0@ == nm && out@[i as int].1 == tv);
                        }
                    },
                }
                i = i + 1;
            }
            Ok(
                ir::Union {
                    name: decl.name.clone(),
                    kind: ir::UnionKind::ExternallyTagged(out),
                },
            )
        },
        SrcUnionShape::InternallyTagged { tag_field, variants } => {
            let mut out: Vec<ir::Struct> = Vec::new();
            let mut i: usize = 0;
            while i < variants.len()
                invariant
                    i <= variants@.len(),
                    decl.shape matches SrcUnionShape::InternallyTagged {
                        tag_field: tf,
                        variants: vs,
                    } && vs@ == variants@,
                    out@.len() == i,
                    forall|j: int| 0 <= j < i ==> spec_struct_supported(#[trigger] variants@[j]),
                    forall|j: int|
                        0 <= j < i ==> spec_struct_matches(#[trigger] out@[j], variants@[j]),
                decreases variants@.len() - i,
            {
                match parse_struct(&variants[i]) {
                    Err(err) => {
                        proof {
                            lemma_variants_error(variants@, i as int);
                        }
                        return Err(err);
                    },
                    Ok(variant) => {
                        let ghost vv = variant;
                        out.push(variant);
                        proof {
                            assert(out@[i as int] == vv);
                        }
                    },
                }
                i = i + 1;
            }
            Ok(
                ir::Union {
                    name: decl.name.clone(),
                    kind: ir::UnionKind::InternallyTagged(
                        ir::InternallyTagged { tag_field: tag_field.clone(), variants: out },
                    ),
                },
            )
        },
    }
}

} // verus!


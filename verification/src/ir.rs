//! The language-neutral intermediate representation: the declarations
//! and type expressions that the frontend produces and code generation
//! consumes.  Values are built once per source file, read-only
//! afterwards; member order is declaration order and is preserved
//! through to output.

use vstd::prelude::*;

verus! {

/// The closed set of built-in scalar types recognized uniformly across
/// all backends.
#[derive(Clone, Copy, PartialEq, Eq, Structural, Debug)]
pub enum Primitive {
    Bool,
    Num,
    Str,
}

/// A type expression: a shape and an independent nullability flag.
///
/// Nullability wraps the composed shape rather than being a shape of its
/// own, so it can be layered at any nesting depth: a nullable array of
/// nullable primitives is representable and distinct from a nullable
/// array of non-nullable primitives.
#[derive(Debug)]
pub struct TypeExpr {
    pub nullable: bool,
    pub kind: TypeExprKind,
}

/// The shape of a type expression.
#[derive(Debug)]
pub enum TypeExprKind {
    /// A built-in scalar type.
    Primitive(Primitive),
    /// An array of the given element type.
    ArrayOf(Box<TypeExpr>),
    /// A reference to another declaration, carried as an opaque name and
    /// never resolved within this core.
    Identifier(String),
}

/// Structural equality of two type expressions: same nullability, same
/// shape, and for identifiers the same name text.
pub open spec fn spec_type_expr_eq(a: TypeExpr, b: TypeExpr) -> bool
    decreases a,
{
    &&& a.nullable == b.nullable
    &&& match (a.kind, b.kind) {
        (TypeExprKind::Primitive(p), TypeExprKind::Primitive(q)) => p == q,
        (TypeExprKind::ArrayOf(x), TypeExprKind::ArrayOf(y)) => spec_type_expr_eq(*x, *y),
        (TypeExprKind::Identifier(s), TypeExprKind::Identifier(t)) => s@ == t@,
        _ => false,
    }
}

/// Decides structural equality of two type expressions.
fn type_expr_eq(a: &TypeExpr, b: &TypeExpr) -> (r: bool)
    ensures
        r == spec_type_expr_eq(*a, *b),
    decreases *a,
{
    if a.nullable != b.nullable {
        return false;
    }
    match (&a.kind, &b.kind) {
        (TypeExprKind::Primitive(p), TypeExprKind::Primitive(q)) => *p == *q,
        (TypeExprKind::ArrayOf(x), TypeExprKind::ArrayOf(y)) => type_expr_eq(x, y),
        (TypeExprKind::Identifier(s), TypeExprKind::Identifier(t)) => *s == *t,
        _ => false,
    }
}

impl PartialEq for TypeExpr {
    fn eq(&self, other: &TypeExpr) -> (r: bool) {
        type_expr_eq(self, other)
    }
}

impl vstd::std_specs::cmp::PartialEqSpecImpl for TypeExpr {
    open spec fn obeys_eq_spec() -> bool {
        true
    }

    open spec fn eq_spec(&self, other: &TypeExpr) -> bool {
        spec_type_expr_eq(*self, *other)
    }
}

/// A named member of a struct-like declaration.
#[derive(PartialEq, Debug)]
pub struct Field {
    pub name: String,
    pub optional: bool,
    pub ty: TypeExpr,
}

/// A struct-like declaration: a name and its fields in declaration
/// order.
#[derive(PartialEq, Debug)]
pub struct Struct {
    pub name: String,
    pub fields: Vec<Field>,
}

/// An integer-valued enum member.
#[derive(Clone, PartialEq, Debug)]
pub struct IntegerEnumMember {
    pub name: String,
    pub value: i64,
}

/// A string-valued enum member.
#[derive(Clone, PartialEq, Debug)]
pub struct StringEnumMember {
    pub name: String,
    pub value: String,
}

/// The members of an enum declaration, homogeneous by construction:
/// either all integer-valued or all string-valued.
#[derive(Clone, PartialEq, Debug)]
pub enum EnumKind {
    Integers(Vec<IntegerEnumMember>),
    Strings(Vec<StringEnumMember>),
}

/// An enum-like declaration.
#[derive(Clone, PartialEq, Debug)]
pub struct Enum {
    pub name: String,
    pub kind: EnumKind,
}

/// An internally tagged union: the discriminant is a named field
/// embedded in each variant's own field list, so every variant must be
/// struct-shaped.
#[derive(PartialEq, Debug)]
pub struct InternallyTagged {
    pub tag_field: String,
    pub variants: Vec<Struct>,
}

/// The two union-tagging disciplines.
#[derive(PartialEq, Debug)]
pub enum UnionKind {
    /// The variant name itself is the discriminant; each payload is an
    /// arbitrary type expression.
    ExternallyTagged(Vec<(String, TypeExpr)>),
    /// The discriminant lives among the fields of each struct-shaped
    /// variant.
    InternallyTagged(InternallyTagged),
}

/// A union-like declaration.
#[derive(PartialEq, Debug)]
pub struct Union {
    pub name: String,
    pub kind: UnionKind,
}

/// A service declaration: recognized in the representation but not yet
/// renderable by any backend.
#[derive(Clone, PartialEq, Debug)]
pub struct Service {
    pub name: String,
}

/// A type declaration.
#[derive(PartialEq, Debug)]
pub enum TypeDecl {
    Struct(Struct),
    Enum(Enum),
    Union(Union),
}

/// One item of a source file.
#[derive(PartialEq, Debug)]
pub enum Item {
    TypeDecl(TypeDecl),
    Service(Service),
}

/// An ordered sequence of items; declaration order equals emission
/// order.
#[derive(PartialEq, Debug)]
pub struct File {
    pub items: Vec<Item>,
}

} // verus!

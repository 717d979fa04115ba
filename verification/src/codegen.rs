//! The code-generation engine: walks the intermediate representation,
//! drives a backend capability interface, and assembles the output with
//! the block primitive.
//!
//! Every nested type expression is eagerly rendered to a backend string
//! before any declaration block is built, so the declaration-level
//! operations are pure template composition.

use crate::block::{flat_lines, flatten, spec_render, Block, LineShape};
use crate::decimal::{i64_decimal, spec_i64_decimal};
use crate::ir;
use vstd::prelude::*;

verus! {

/// Whether an enum's members carry integer or string values.
#[derive(Clone, Copy, PartialEq, Eq, Structural, Debug)]
pub enum EnumValueType {
    Integer,
    Str,
}

/// A struct declaration whose field types are already rendered to
/// backend-specific strings.
#[derive(PartialEq, Debug)]
pub struct Struct {
    pub name: String,
    pub fields: Vec<(String, String)>,
}

/// The mathematical shape of a rendered struct declaration.
pub struct StructShape {
    pub name: Seq<char>,
    pub fields: Seq<(Seq<char>, Seq<char>)>,
}

impl View for Struct {
    type V = StructShape;

    open spec fn view(&self) -> StructShape {
        StructShape {
            name: self.name@,
            fields: self.fields@.map_values(|f: (String, String)| (f.0@, f.1@)),
        }
    }
}

/// An enum declaration whose member values are already rendered to
/// strings, byte-for-byte as declared.
#[derive(PartialEq, Debug)]
pub struct Enum {
    pub name: String,
    pub value_type: EnumValueType,
    pub values: Vec<(String, String)>,
}

/// The mathematical shape of a rendered enum declaration.
pub struct EnumShape {
    pub name: Seq<char>,
    pub value_type: EnumValueType,
    pub values: Seq<(Seq<char>, Seq<char>)>,
}

impl View for Enum {
    type V = EnumShape;

    open spec fn view(&self) -> EnumShape {
        EnumShape {
            name: self.name@,
            value_type: self.value_type,
            values: self.values@.map_values(|v: (String, String)| (v.0@, v.1@)),
        }
    }
}

/// A union declaration's rendered kind.
#[derive(PartialEq, Debug)]
pub enum UnionKind {
    /// Variant names paired with their rendered payload types.
    ExternallyTagged(Vec<(String, String)>),
    /// The tag field name and the struct-shaped variants.
    InternallyTagged { tag_field: String, variants: Vec<Struct> },
}

/// The mathematical shape of a rendered union kind.
pub enum UnionKindShape {
    ExternallyTagged(Seq<(Seq<char>, Seq<char>)>),
    InternallyTagged { tag_field: Seq<char>, variants: Seq<StructShape> },
}

impl View for UnionKind {
    type V = UnionKindShape;

    open spec fn view(&self) -> UnionKindShape {
        match self {
            UnionKind::ExternallyTagged(vs) => UnionKindShape::ExternallyTagged(
                vs@.map_values(|v: (String, String)| (v.0@, v.1@)),
            ),
            UnionKind::InternallyTagged { tag_field, variants } => UnionKindShape::InternallyTagged {
                tag_field: tag_field@,
                variants: variants@.map_values(|s: Struct| s@),
            },
        }
    }
}

/// A union declaration whose payload types are already rendered.
#[derive(PartialEq, Debug)]
pub struct Union {
    pub name: String,
    pub kind: UnionKind,
}

/// The mathematical shape of a rendered union declaration.
pub struct UnionShape {
    pub name: Seq<char>,
    pub kind: UnionKindShape,
}

impl View for Union {
    type V = UnionShape;

    open spec fn view(&self) -> UnionShape {
        UnionShape { name: self.name@, kind: self.kind@ }
    }
}

/// The capability interface a target-language backend satisfies.
///
/// Each executable operation is pinned to a specification function of
/// the backend value and the operation's arguments alone; that is what
/// makes rendering referentially transparent: the same input always
/// produces the same text.
pub trait CodeGen: Sized {
    /// The lines of the file preamble.
    spec fn head_spec(&self) -> Seq<LineShape>;

    /// The backend string for a reference to a named declaration.
    spec fn identifier_spec(&self, id: Seq<char>) -> Seq<char>;

    /// The backend string for a built-in scalar type.
    spec fn primitive_spec(&self, primitive: ir::Primitive) -> Seq<char>;

    /// The backend string for an array of an already-rendered element.
    spec fn array_spec(&self, elem: Seq<char>) -> Seq<char>;

    /// The backend string for an optional wrap of an already-rendered
    /// inner type.
    spec fn optional_spec(&self, unwrapped: Seq<char>) -> Seq<char>;

    /// The lines of a struct declaration block.
    spec fn struct_decl_spec(&self, s: StructShape) -> Seq<LineShape>;

    /// The lines of an enum declaration block.
    spec fn enum_decl_spec(&self, e: EnumShape) -> Seq<LineShape>;

    /// The lines of a union declaration block.
    spec fn union_decl_spec(&self, u: UnionShape) -> Seq<LineShape>;

    /// The file preamble: imports, package or module declaration.
    fn head(&self) -> (b: Block)
        ensures
            b@ == self.head_spec(),
    ;

    /// Renders a reference to a named declaration.
    fn identifier_expr(&self, id: &str) -> (r: String)
        ensures
            r@ == self.identifier_spec(id@),
    ;

    /// Renders a built-in scalar type.
    fn primitive_expr(&self, primitive: ir::Primitive) -> (r: String)
        ensures
            r@ == self.primitive_spec(primitive),
    ;

    /// Renders an array type around an already-rendered element.
    fn array_expr(&self, elem: &str) -> (r: String)
        ensures
            r@ == self.array_spec(elem@),
    ;

    /// Renders an optional wrap around an already-rendered inner type.
    fn optional_expr(&self, unwrapped: &str) -> (r: String)
        ensures
            r@ == self.optional_spec(unwrapped@),
    ;

    /// Renders a struct declaration block.
    fn struct_decl(&self, struct_: Struct) -> (b: Block)
        ensures
            b@ == self.struct_decl_spec(struct_@),
    ;

    /// Renders an enum declaration block.
    fn enum_decl(&self, enum_: Enum) -> (b: Block)
        ensures
            b@ == self.enum_decl_spec(enum_@),
    ;

    /// Renders a union declaration block.
    fn union_decl(&self, union: Union) -> (b: Block)
        ensures
            b@ == self.union_decl_spec(union@),
    ;
}

/// The backend string for a type expression: the shape is rendered
/// bottom-up, and the optional wrap is applied last at each level, so a
/// nullable array of nullable elements gets two independent wraps at two
/// nesting levels.
pub open spec fn spec_type_expr_str<B: CodeGen>(cg: B, t: ir::TypeExpr) -> Seq<char>
    decreases t,
{
    let unwrapped = match t.kind {
        ir::TypeExprKind::Primitive(p) => cg.primitive_spec(p),
        ir::TypeExprKind::ArrayOf(e) => cg.array_spec(spec_type_expr_str(cg, *e)),
        ir::TypeExprKind::Identifier(id) => cg.identifier_spec(id@),
    };
    if t.nullable {
        cg.optional_spec(unwrapped)
    } else {
        unwrapped
    }
}

/// The rendered shape of a struct declaration.
pub open spec fn spec_struct_from_ir<B: CodeGen>(cg: B, s: ir::Struct) -> StructShape {
    StructShape {
        name: s.name@,
        fields: s.fields@.map_values(|f: ir::Field| (f.name@, spec_type_expr_str(cg, f.ty))),
    }
}

/// The rendered shape of an enum declaration: names and values exactly
/// as declared, integer values in canonical decimal.
pub open spec fn spec_enum_from_ir(e: ir::Enum) -> EnumShape {
    match e.kind {
        ir::EnumKind::Integers(ms) => EnumShape {
            name: e.name@,
            value_type: EnumValueType::Integer,
            values: ms@.map_values(
                |m: ir::IntegerEnumMember| (m.name@, spec_i64_decimal(m.value as int)),
            ),
        },
        ir::EnumKind::Strings(ms) => EnumShape {
            name: e.name@,
            value_type: EnumValueType::Str,
            values: ms@.map_values(|m: ir::StringEnumMember| (m.name@, m.value@)),
        },
    }
}

/// The rendered shape of a union kind.
pub open spec fn spec_union_kind_from_ir<B: CodeGen>(cg: B, k: ir::UnionKind) -> UnionKindShape {
    match k {
        ir::UnionKind::ExternallyTagged(vs) => UnionKindShape::ExternallyTagged(
            vs@.map_values(|v: (String, ir::TypeExpr)| (v.0@, spec_type_expr_str(cg, v.1))),
        ),
        ir::UnionKind::InternallyTagged(it) => UnionKindShape::InternallyTagged {
            tag_field: it.tag_field@,
            variants: it.variants@.map_values(|s: ir::Struct| spec_struct_from_ir(cg, s)),
        },
    }
}

/// The rendered shape of a union declaration.
pub open spec fn spec_union_from_ir<B: CodeGen>(cg: B, u: ir::Union) -> UnionShape {
    UnionShape { name: u.name@, kind: spec_union_kind_from_ir(cg, u.kind) }
}

/// Renders a type expression to the backend string, bottom-up, applying
/// the optional wrap last at each level.
pub fn type_expr_to_string<B: CodeGen>(type_expr: &ir::TypeExpr, code_gen: &B) -> (r: String)
    ensures
        r@ == spec_type_expr_str(*code_gen, *type_expr),
    decreases *type_expr,
{
    let unwrapped = match &type_expr.kind {
        ir::TypeExprKind::Primitive(primitive) => code_gen.primitive_expr(*primitive),
        ir::TypeExprKind::ArrayOf(element) => {
            let element_string = type_expr_to_string(element, code_gen);
            code_gen.array_expr(element_string.as_str())
        },
        ir::TypeExprKind::Identifier(id) => code_gen.identifier_expr(id.as_str()),
    };
    if type_expr.nullable {
        code_gen.optional_expr(unwrapped.as_str())
    } else {
        unwrapped
    }
}

impl Struct {
    /// Builds the rendered struct: the name copied, each field's type
    /// expression resolved to the backend string, field order kept.
    pub fn from_ir<B: CodeGen>(ir_struct: &ir::Struct, code_gen: &B) -> (s: Struct)
        ensures
            s@ == spec_struct_from_ir(*code_gen, *ir_struct),
    {
        let ghost target = spec_struct_from_ir(*code_gen, *ir_struct).fields;
        let mut fields: Vec<(String, String)> = Vec::new();
        let mut i: usize = 0;
        while i < ir_struct.fields.len()
            invariant
                i <= ir_struct.fields@.len(),
                target == spec_struct_from_ir(*code_gen, *ir_struct).fields,
                target.len() == ir_struct.fields@.len(),
                fields@.len() == i,
                forall|j: int|
                    0 <= j < i ==> #[trigger] fields@[j].0@ == target[j].0 && fields@[j].1@
                        == target[j].1,
            decreases ir_struct.fields@.len() - i,
        {
            let f = &ir_struct.fields[i];
            let ty = type_expr_to_string(&f.ty, code_gen);
            let name = f.name.clone();
            let ghost nm = name@;
            let ghost tv = ty@;
            fields.push((name, ty));
            proof {
                assert(target[i as int] == (
                    ir_struct.fields@[i as int].name@,
                    spec_type_expr_str(*code_gen, ir_struct.fields@[i as int].ty),
                ));
                assert(fields@[i as int].0@ == nm && fields@[i as int].1@ == tv);
            }
            i = i + 1;
        }
        let s = Struct { name: ir_struct.name.clone(), fields };
        proof {
            assert forall|j: int| 0 <= j < target.len() implies s@.fields[j] == target[j] by {
                assert(s@.fields[j] == (s.fields@[j].0@, s.fields@[j].1@));
                assert(target[j] == (
                    ir_struct.fields@[j].name@,
                    spec_type_expr_str(*code_gen, ir_struct.fields@[j].ty),
                ));
            }
            assert(s@.fields =~= target);
        }
        s
    }
}

impl Enum {
    /// Builds the rendered enum: member names and values byte-for-byte
    /// as declared; integer values in canonical decimal, string values
    /// copied unchanged.
    pub fn from_ir<B: CodeGen>(ir_enum: &ir::Enum, _code_gen: &B) -> (e: Enum)
        ensures
            e@ == spec_enum_from_ir(*ir_enum),
    {
        let ghost target = spec_enum_from_ir(*ir_enum).values;
        let mut values: Vec<(String, String)> = Vec::new();
        let value_type: EnumValueType;
        match &ir_enum.kind {
            ir::EnumKind::Integers(integers) => {
                value_type = EnumValueType::Integer;
                let mut i: usize = 0;
                while i < integers.len()
                    invariant
                        i <= integers@.len(),
                        ir_enum.kind matches ir::EnumKind::Integers(ms) && ms@ == integers@,
                        target == spec_enum_from_ir(*ir_enum).values,
                        target.len() == integers@.len(),
                        values@.len() == i,
                        forall|j: int|
                            0 <= j < i ==> #[trigger] values@[j].0@ == target[j].0
                                && values@[j].1@ == target[j].1,
                    decreases integers@.len() - i,
                {
                    let m = &integers[i];
                    let name = m.name.clone();
                    let rendered = i64_decimal(m.value);
                    let ghost nm = name@;
                    let ghost tv = rendered@;
                    values.push((name, rendered));
                    proof {
                        assert(target[i as int] == (
                            integers@[i as int].name@,
                            spec_i64_decimal(integers@[i as int].value as int),
                        ));
                        assert(values@[i as int].0@ == nm && values@[i as int].1@ == tv);
                    }
                    i = i + 1;
                }
            },
            ir::EnumKind::Strings(strings) => {
                value_type = EnumValueType::Str;
                let mut i: usize = 0;
                while i < strings.len()
                    invariant
                        i <= strings@.len(),
                        ir_enum.kind matches ir::EnumKind::Strings(ms) && ms@ == strings@,
                        target == spec_enum_from_ir(*ir_enum).values,
                        target.len() == strings@.len(),
                        values@.len() == i,
                        forall|j: int|
                            0 <= j < i ==> #[trigger] values@[j].0@ == target[j].0
                                && values@[j].1@ == target[j].1,
                    decreases strings@.len() - i,
                {
                    let m = &strings[i];
                    let name = m.name.clone();
                    let copied = m.value.clone();
                    let ghost nm = name@;
                    let ghost tv = copied@;
                    values.push((name, copied));
                    proof {
                        assert(target[i as int] == (
                            strings@[i as int].name@,
                            strings@[i as int].value@,
                        ));
                        assert(values@[i as int].0@ == nm && values@[i as int].1@ == tv);
                    }
                    i = i + 1;
                }
            },
        }
        let e = Enum { name: ir_enum.name.clone(), value_type, values };
        proof {
            assert forall|j: int| 0 <= j < target.len() implies e@.values[j] == target[j] by {
                assert(e@.values[j] == (e.values@[j].0@, e.values@[j].1@));
                assert(target[j] == (target[j].0, target[j].1));
            }
            assert(e@.values =~= target);
        }
        e
    }
}

impl UnionKind {
    /// Builds the rendered union kind: externally tagged payloads are
    /// resolved to backend strings, internally tagged variants reuse the
    /// struct conversion; variant order is kept.
    pub fn from_ir<B: CodeGen>(ir_union_kind: &ir::UnionKind, code_gen: &B) -> (r: UnionKind)
        ensures
            r@ == spec_union_kind_from_ir(*code_gen, *ir_union_kind),
    {
        match ir_union_kind {
            ir::UnionKind::ExternallyTagged(variants) => {
                let ghost target = spec_union_kind_from_ir(
                    *code_gen,
                    *ir_union_kind,
                )->ExternallyTagged_0;
                let mut out: Vec<(String, String)> = Vec::new();
                let mut i: usize = 0;
                while i < variants.len()
                    invariant
                        i <= variants@.len(),
                        ir_union_kind matches ir::UnionKind::ExternallyTagged(vs) && vs@
                            == variants@,
                        target == spec_union_kind_from_ir(
                            *code_gen,
                            *ir_union_kind,
                        )->ExternallyTagged_0,
                        target.len() == variants@.len(),
                        out@.len() == i,
                        forall|j: int|
                            0 <= j < i ==> #[trigger] out@[j].0@ == target[j].0 && out@[j].1@
                                == target[j].1,
                    decreases variants@.len() - i,
                {
                    let v = &variants[i];
                    let ty = type_expr_to_string(&v.1, code_gen);
                    let name = v.0.clone();
                    let ghost nm = name@;
                    let ghost tv = ty@;
                    out.push((name, ty));
                    proof {
                        assert(target[i as int] == (
                            variants@[i as int].0@,
                            spec_type_expr_str(*code_gen, variants@[i as int].1),
                        ));
                        assert(out@[i as int].0@ == nm && out@[i as int].1@ == tv);
                    }
                    i = i + 1;
                }
                let r = UnionKind::ExternallyTagged(out);
                proof {
                    assert forall|j: int|
                        0 <= j < target.len() implies r@->ExternallyTagged_0[j] == target[j] by {
                        assert(r@->ExternallyTagged_0[j] == (
                            r->ExternallyTagged_0@[j].0@,
                            r->ExternallyTagged_0@[j].1@,
                        ));
                        assert(target[j] == (
                            variants@[j].0@,
                            spec_type_expr_str(*code_gen, variants@[j].1),
                        ));
                    }
                    assert(r@->ExternallyTagged_0 =~= target);
                }
                r
            },
            ir::UnionKind::InternallyTagged(internally_tagged) => {
                let ghost target = spec_union_kind_from_ir(
                    *code_gen,
                    *ir_union_kind,
                )->InternallyTagged_variants;
                let mut out: Vec<Struct> = Vec::new();
                let mut i: usize = 0;
                while i < internally_tagged.variants.len()
                    invariant
                        i <= internally_tagged.variants@.len(),
                        ir_union_kind matches ir::UnionKind::InternallyTagged(it) && it
                            == internally_tagged,
                        target == spec_union_kind_from_ir(
                            *code_gen,
                            *ir_union_kind,
                        )->InternallyTagged_variants,
                        target.len() == internally_tagged.variants@.len(),
                        out@.len() == i,
                        forall|j: int| 0 <= j < i ==> #[trigger] out@[j]@ == target[j],
                    decreases internally_tagged.variants@.len() - i,
                {
                    let variant = Struct::from_ir(&internally_tagged.variants[i], code_gen);
                    let ghost vv = variant@;
                    out.push(variant);
                    proof {
                        assert(target[i as int] == spec_struct_from_ir(
                            *code_gen,
                            internally_tagged.variants@[i as int],
                        ));
                        assert(out@[i as int]@ == vv);
                    }
                    i = i + 1;
                }
                let r = UnionKind::InternallyTagged {
                    tag_field: internally_tagged.tag_field.clone(),
                    variants: out,
                };
                proof {
                    assert forall|j: int|
                        0 <= j < target.len() implies r@->InternallyTagged_variants[j]
                        == target[j] by {
                        assert(r@->InternallyTagged_variants[j]
                            == r->InternallyTagged_variants@[j]@);
                    }
                    assert(r@->InternallyTagged_variants =~= target);
                }
                r
            },
        }
    }
}

impl Union {
    /// Builds the rendered union: the name copied, the kind converted.
    pub fn from_ir<B: CodeGen>(ir_union: &ir::Union, code_gen: &B) -> (u: Union)
        ensures
            u@ == spec_union_from_ir(*code_gen, *ir_union),
    {
        Union {
            name: ir_union.name.clone(),
            kind: UnionKind::from_ir(&ir_union.kind, code_gen),
        }
    }
}

/// Failure of `generate`.
#[derive(Clone, Copy, PartialEq, Eq, Structural, Debug)]
pub enum GenerateError {
    /// The file holds a declaration kind with no backend rendering path:
    /// a service declaration.
    UnsupportedDeclaration,
}

/// A blank separator line.
pub open spec fn blank_line() -> LineShape {
    LineShape { depth: 0, text: Seq::empty() }
}

/// The lines a backend produces for one type declaration.
pub open spec fn spec_item_lines<B: CodeGen>(cg: B, item: ir::Item) -> Seq<LineShape> {
    match item {
        ir::Item::TypeDecl(td) => match td {
            ir::TypeDecl::Struct(s) => cg.struct_decl_spec(spec_struct_from_ir(cg, s)),
            ir::TypeDecl::Enum(e) => cg.enum_decl_spec(spec_enum_from_ir(e)),
            ir::TypeDecl::Union(u) => cg.union_decl_spec(spec_union_from_ir(cg, u)),
        },
        ir::Item::Service(_) => Seq::empty(),
    }
}

/// The item part of a generated file: each item's lines flattened and
/// followed by one blank separator line, in file order.
pub open spec fn spec_items_lines<B: CodeGen>(cg: B, items: Seq<ir::Item>) -> Seq<LineShape>
    decreases items.len(),
{
    if items.len() == 0 {
        Seq::empty()
    } else {
        flat_lines(spec_item_lines(cg, items[0])) + seq![blank_line()] + spec_items_lines(
            cg,
            items.drop_first(),
        )
    }
}

/// Whether every item of the file has a rendering path: services have
/// none yet.
pub open spec fn spec_renderable(items: Seq<ir::Item>) -> bool {
    forall|i: int| 0 <= i < items.len() ==> items[i] is TypeDecl
}

/// The full generated text: the flattened head block first, then each
/// item's flattened block followed by one blank line, in file order.
pub open spec fn spec_generate<B: CodeGen>(cg: B, file: ir::File) -> Seq<char> {
    spec_render(flat_lines(cg.head_spec()) + spec_items_lines(cg, file.items@))
}

/// Appending one item appends its flattened lines and a blank line.
proof fn lemma_items_lines_snoc<B: CodeGen>(cg: B, items: Seq<ir::Item>, item: ir::Item)
    ensures
        spec_items_lines(cg, items.push(item)) == spec_items_lines(cg, items) + flat_lines(
            spec_item_lines(cg, item),
        ) + seq![blank_line()],
    decreases items.len(),
{
    let whole = items.push(item);
    if items.len() == 0 {
        assert(whole[0] == item);
        assert(whole.drop_first() =~= Seq::<ir::Item>::empty());
        assert(items =~= Seq::<ir::Item>::empty());
        assert(spec_items_lines(cg, Seq::<ir::Item>::empty()) == Seq::<LineShape>::empty());
        assert(spec_items_lines(cg, whole) =~= spec_items_lines(cg, items) + flat_lines(
            spec_item_lines(cg, item),
        ) + seq![blank_line()]);
    } else {
        assert(whole[0] == items[0]);
        assert(whole.drop_first() =~= items.drop_first().push(item));
        lemma_items_lines_snoc(cg, items.drop_first(), item);
        assert(spec_items_lines(cg, whole) =~= spec_items_lines(cg, items) + flat_lines(
            spec_item_lines(cg, item),
        ) + seq![blank_line()]);
    }
}

/// Renders a whole file: the backend's head block first, then each
/// declaration's block with one blank line after it, in file order.  A
/// file holding a service declaration is refused with an error value;
/// generation never aborts.
pub fn generate<B: CodeGen>(ir_file: &ir::File, code_gen: &B) -> (r: Result<
    String,
    GenerateError,
>)
    ensures
        r is Ok <==> spec_renderable(ir_file.items@),
        r matches Ok(text) ==> text@ == spec_generate(*code_gen, *ir_file),
        r matches Err(e) ==> e == GenerateError::UnsupportedDeclaration,
{
    let head = code_gen.head();
    let mut file_block = flatten(&head);
    proof {
        assert(ir_file.items@.take(0) =~= Seq::<ir::Item>::empty());
        assert(file_block@ =~= flat_lines(code_gen.head_spec()) + spec_items_lines(
            *code_gen,
            ir_file.items@.take(0),
        ));
    }
    let mut i: usize = 0;
    while i < ir_file.items.len()
        invariant
            i <= ir_file.items@.len(),
            forall|j: int| 0 <= j < i ==> ir_file.items@[j] is TypeDecl,
            file_block@ == flat_lines(code_gen.head_spec()) + spec_items_lines(
                *code_gen,
                ir_file.items@.take(i as int),
            ),
        decreases ir_file.items@.len() - i,
    {
        let item_block = match &ir_file.items[i] {
            ir::Item::Service(_) => {
                proof {
                    assert(!(ir_file.items@[i as int] is TypeDecl));
                }
                return Err(GenerateError::UnsupportedDeclaration);
            },
            ir::Item::TypeDecl(type_decl) => match type_decl {
                ir::TypeDecl::Struct(ir_struct) => code_gen.struct_decl(
                    Struct::from_ir(ir_struct, code_gen),
                ),
                ir::TypeDecl::Union(ir_union) => code_gen.union_decl(
                    Union::from_ir(ir_union, code_gen),
                ),
                ir::TypeDecl::Enum(ir_enum) => code_gen.enum_decl(
                    Enum::from_ir(ir_enum, code_gen),
                ),
            },
        };
        let flat = flatten(&item_block);
        let sep = Block::line("");
        proof {
            reveal_strlit("");
            assert(""@ =~= Seq::<char>::empty());
            assert(sep@ =~= seq![blank_line()]);
        }
        let with_sep = Block::pair(flat, sep);
        file_block = Block::pair(file_block, with_sep);
        proof {
            assert(ir_file.items@.take(i + 1 as int) =~= ir_file.items@.take(i as int).push(
                ir_file.items@[i as int],
            ));
            lemma_items_lines_snoc(
                *code_gen,
                ir_file.items@.take(i as int),
                ir_file.items@[i as int],
            );
            assert(file_block@ =~= flat_lines(code_gen.head_spec()) + spec_items_lines(
                *code_gen,
                ir_file.items@.take(i + 1 as int),
            ));
        }
        i = i + 1;
    }
    proof {
        assert(ir_file.items@.take(ir_file.items@.len() as int) =~= ir_file.items@);
    }
    Ok(file_block.string())
}

/// A nullable array of a nullable primitive renders with two optional
/// wraps, one around the primitive mapping and one around the array
/// mapping; the two wraps never collapse into one.
pub proof fn lemma_nullable_array_of_nullable_primitive<B: CodeGen>(
    cg: B,
    t: ir::TypeExpr,
    p: ir::Primitive,
)
    requires
        t.nullable,
        t.kind matches ir::TypeExprKind::ArrayOf(e) && (*e).nullable && (*e).kind
            == ir::TypeExprKind::Primitive(p),
    ensures
        spec_type_expr_str(cg, t) == cg.optional_spec(
            cg.array_spec(cg.optional_spec(cg.primitive_spec(p))),
        ),
{
    let e = t.kind->ArrayOf_0;
    assert(spec_type_expr_str(cg, *e) == cg.optional_spec(cg.primitive_spec(p)));
}

/// In a generated file the head lines come first, and between the
/// blocks of two items stands exactly one blank separator line.
pub proof fn lemma_two_items_one_blank_line<B: CodeGen>(
    cg: B,
    file: ir::File,
    a: ir::Item,
    b: ir::Item,
)
    requires
        file.items@ == seq![a, b],
    ensures
        spec_generate(cg, file) == spec_render(
            flat_lines(cg.head_spec()) + flat_lines(spec_item_lines(cg, a)) + seq![blank_line()]
                + flat_lines(spec_item_lines(cg, b)) + seq![blank_line()],
        ),
{
    let items = file.items@;
    assert(items[0] == a);
    assert(items.drop_first() =~= seq![b]);
    assert(seq![b][0] == b);
    assert(seq![b].drop_first() =~= Seq::<ir::Item>::empty());
    assert(spec_items_lines(cg, Seq::<ir::Item>::empty()) == Seq::<LineShape>::empty());
    assert(spec_items_lines(cg, seq![b]) =~= flat_lines(spec_item_lines(cg, b)) + seq![
        blank_line(),
    ]);
    assert(spec_items_lines(cg, items) =~= flat_lines(spec_item_lines(cg, a)) + seq![blank_line()]
        + spec_items_lines(cg, seq![b]));
    assert(flat_lines(cg.head_spec()) + spec_items_lines(cg, items) =~= flat_lines(cg.head_spec())
        + flat_lines(spec_item_lines(cg, a)) + seq![blank_line()] + flat_lines(
        spec_item_lines(cg, b),
    ) + seq![blank_line()]);
}

/// Rendering is referentially transparent: `generate` pins its result to
/// `spec_generate`, a function of the file and the backend alone, so two
/// renderings of the same file with the same backend yield the same
/// text.
pub proof fn lemma_generate_deterministic<B: CodeGen>(
    cg: B,
    file: ir::File,
    first: Seq<char>,
    second: Seq<char>,
)
    requires
        first == spec_generate(cg, file),
        second == spec_generate(cg, file),
    ensures
        first == second,
{
}

} // verus!

//! The type renderer: Go syntax for a type-use, the bodies of named type
//! definitions, and the fixed header every generated file starts with.

use vstd::prelude::*;

use crate::ident::{
    go_exported_field_name, pascal_of, spec_sanitized, to_pascal_case,
};
use crate::schema::{
    AlgebraicTypeUse, ModuleDef, PlainEnumTypeDef, PrimitiveType, ProductTypeDef, SumTypeDef,
    use_refs_valid,
};

verus! {

/// The Go spelling of a primitive scalar shape. The 128-bit and 256-bit
/// integer widths have no native fixed-width equivalent and map to the
/// arbitrary-precision integer type.
pub open spec fn spec_prim_name(p: PrimitiveType) -> Seq<char> {
    match p {
        PrimitiveType::Bool => "bool"@,
        PrimitiveType::I8 => "int8"@,
        PrimitiveType::U8 => "uint8"@,
        PrimitiveType::I16 => "int16"@,
        PrimitiveType::U16 => "uint16"@,
        PrimitiveType::I32 => "int32"@,
        PrimitiveType::U32 => "uint32"@,
        PrimitiveType::I64 => "int64"@,
        PrimitiveType::U64 => "uint64"@,
        PrimitiveType::I128 => "*big.Int"@,
        PrimitiveType::U128 => "*big.Int"@,
        PrimitiveType::I256 => "*big.Int"@,
        PrimitiveType::U256 => "*big.Int"@,
        PrimitiveType::F32 => "float32"@,
        PrimitiveType::F64 => "float64"@,
    }
}

/// The concatenated PascalCase conversions of the first `n` name segments.
pub open spec fn spec_pascal_join_upto(segs: Seq<String>, n: int) -> Seq<char>
    decreases n,
{
    if n <= 0 {
        Seq::empty()
    } else {
        spec_pascal_join_upto(segs, n - 1) + pascal_of(segs[n - 1]@)
    }
}

/// The generated Go name of the typespace entry at index `r`: its name
/// segments, each converted to PascalCase, concatenated.
pub open spec fn spec_ref_name(m: ModuleDef, r: int) -> Seq<char> {
    spec_pascal_join_upto(
        m.typespace@[r].name_segments@,
        m.typespace@[r].name_segments@.len() as int,
    )
}

/// The Go syntax for the shape `ty`. A reference renders as the generated
/// name of the referenced entry, never as an inline expansion, which is what
/// keeps cyclic type graphs representable.
pub open spec fn spec_type_use(m: ModuleDef, ty: AlgebraicTypeUse) -> Seq<char>
    decreases ty,
{
    match ty {
        AlgebraicTypeUse::Unit => "struct{}"@,
        AlgebraicTypeUse::Never => "any"@,
        AlgebraicTypeUse::Identity => "string"@,
        AlgebraicTypeUse::ConnectionId => "string"@,
        AlgebraicTypeUse::Uuid => "string"@,
        AlgebraicTypeUse::Timestamp => "time.Time"@,
        AlgebraicTypeUse::TimeDuration => "time.Duration"@,
        AlgebraicTypeUse::ScheduleAt => "ScheduleAt"@,
        AlgebraicTypeUse::OptionOf(inner) => "*"@ + spec_type_use(m, *inner),
        AlgebraicTypeUse::ResultOf(ok_ty, err_ty) => "Result["@ + spec_type_use(m, *ok_ty) + ", "@
            + spec_type_use(m, *err_ty) + "]"@,
        AlgebraicTypeUse::Primitive(p) => spec_prim_name(p),
        AlgebraicTypeUse::Str => "string"@,
        AlgebraicTypeUse::ArrayOf(inner) => "[]"@ + spec_type_use(m, *inner),
        AlgebraicTypeUse::Ref(r) => spec_ref_name(m, r as int),
    }
}

/// The concatenated PascalCase conversions of a scoped name's segments.
pub fn pascal_join(segs: &Vec<String>) -> (res: String)
    ensures
        res@ == spec_pascal_join_upto(segs@, segs@.len() as int),
{
    let mut res = String::new();
    let mut i: usize = 0;
    while i < segs.len()
        invariant
            i <= segs@.len(),
            res@ == spec_pascal_join_upto(segs@, i as int),
        decreases segs@.len() - i,
    {
        let seg = to_pascal_case(segs[i].as_str());
        res.append(seg.as_str());
        i = i + 1;
    }
    res
}

/// The generated Go name of the typespace entry at index `r`.
pub fn type_ref_name(m: &ModuleDef, r: usize) -> (res: String)
    requires
        r < m.typespace@.len(),
    ensures
        res@ == spec_ref_name(*m, r as int),
{
    pascal_join(&m.typespace[r].name_segments)
}

/// Appends the Go syntax for the shape `ty` to `out`.
pub fn write_type(m: &ModuleDef, out: &mut String, ty: &AlgebraicTypeUse)
    requires
        use_refs_valid(*ty, m.typespace@.len() as int),
    ensures
        final(out)@ == old(out)@ + spec_type_use(*m, *ty),
    decreases *ty,
{
    match ty {
        AlgebraicTypeUse::Unit => out.append("struct{}"),
        AlgebraicTypeUse::Never => out.append("any"),
        AlgebraicTypeUse::Identity => out.append("string"),
        AlgebraicTypeUse::ConnectionId => out.append("string"),
        AlgebraicTypeUse::Uuid => out.append("string"),
        AlgebraicTypeUse::Timestamp => out.append("time.Time"),
        AlgebraicTypeUse::TimeDuration => out.append("time.Duration"),
        AlgebraicTypeUse::ScheduleAt => out.append("ScheduleAt"),
        AlgebraicTypeUse::OptionOf(inner) => {
            out.append("*");
            write_type(m, out, inner);
        },
        AlgebraicTypeUse::ResultOf(ok_ty, err_ty) => {
            out.append("Result[");
            write_type(m, out, ok_ty);
            out.append(", ");
            write_type(m, out, err_ty);
            out.append("]");
        },
        AlgebraicTypeUse::Primitive(p) => {
            match p {
                PrimitiveType::Bool => out.append("bool"),
                PrimitiveType::I8 => out.append("int8"),
                PrimitiveType::U8 => out.append("uint8"),
                PrimitiveType::I16 => out.append("int16"),
                PrimitiveType::U16 => out.append("uint16"),
                PrimitiveType::I32 => out.append("int32"),
                PrimitiveType::U32 => out.append("uint32"),
                PrimitiveType::I64 => out.append("int64"),
                PrimitiveType::U64 => out.append("uint64"),
                PrimitiveType::I128 => out.append("*big.Int"),
                PrimitiveType::U128 => out.append("*big.Int"),
                PrimitiveType::I256 => out.append("*big.Int"),
                PrimitiveType::U256 => out.append("*big.Int"),
                PrimitiveType::F32 => out.append("float32"),
                PrimitiveType::F64 => out.append("float64"),
            }
        },
        AlgebraicTypeUse::Str => out.append("string"),
        AlgebraicTypeUse::ArrayOf(inner) => {
            out.append("[]");
            write_type(m, out, inner);
        },
        AlgebraicTypeUse::Ref(r) => {
            let name = type_ref_name(m, *r);
            out.append(name.as_str());
        },
    }
}

/// One rendered product field line: the sanitized exported field name, the
/// field's Go type, and a serialization tag carrying the original wire name.
pub open spec fn spec_product_field_line(
    m: ModuleDef,
    elements: Seq<(String, AlgebraicTypeUse)>,
    i: int,
) -> Seq<char> {
    "\t"@ + spec_sanitized(pascal_of(elements[i].0@), i as nat) + " "@ + spec_type_use(
        m,
        elements[i].1,
    ) + " `json:\""@ + elements[i].0@ + "\"`\n"@
}

pub open spec fn spec_product_lines_upto(
    m: ModuleDef,
    elements: Seq<(String, AlgebraicTypeUse)>,
    n: int,
) -> Seq<char>
    decreases n,
{
    if n <= 0 {
        Seq::empty()
    } else {
        spec_product_lines_upto(m, elements, n - 1) + spec_product_field_line(m, elements, n - 1)
    }
}

/// The rendered body of a product type definition: an aggregate with one
/// field per element.
pub open spec fn spec_product_type_text(m: ModuleDef, name: Seq<char>, p: ProductTypeDef) -> Seq<
    char,
> {
    "type "@ + name + " struct {\n"@ + spec_product_lines_upto(
        m,
        p.elements@,
        p.elements@.len() as int,
    ) + "}\n"@
}

/// Appends the rendered product type definition to `out`.
pub fn write_product_type(m: &ModuleDef, out: &mut String, ty_name: &str, product: &ProductTypeDef)
    requires
        forall|i: int|
            0 <= i < product.elements@.len() ==> use_refs_valid(
                (#[trigger] product.elements@[i]).1,
                m.typespace@.len() as int,
            ),
    ensures
        final(out)@ == old(out)@ + spec_product_type_text(*m, ty_name@, *product),
{
    out.append("type ");
    out.append(ty_name);
    out.append(" struct {\n");
    let ghost prefix = old(out)@ + "type "@ + ty_name@ + " struct {\n"@;
    let mut i: usize = 0;
    while i < product.elements.len()
        invariant
            i <= product.elements@.len(),
            out@ == prefix + spec_product_lines_upto(*m, product.elements@, i as int),
            forall|k: int|
                0 <= k < product.elements@.len() ==> use_refs_valid(
                    (#[trigger] product.elements@[k]).1,
                    m.typespace@.len() as int,
                ),
        decreases product.elements@.len() - i,
    {
        let field = &product.elements[i];
        out.append("\t");
        let go_field = go_exported_field_name(field.0.as_str(), i);
        out.append(go_field.as_str());
        out.append(" ");
        write_type(m, out, &field.1);
        out.append(" `json:\"");
        out.append(field.0.as_str());
        out.append("\"`\n");
        proof {
            assert(out@ =~= prefix + spec_product_lines_upto(*m, product.elements@, i + 1));
        }
        i = i + 1;
    }
    out.append("}\n");
    proof {
        assert(out@ =~= old(out)@ + spec_product_type_text(*m, ty_name@, *product));
    }
}

/// One rendered sum variant tag constant: the tag name is the type name plus
/// the variant's PascalCase name, and its string value is the wire name.
pub open spec fn spec_sum_tag_line(
    name: Seq<char>,
    variants: Seq<(String, AlgebraicTypeUse)>,
    i: int,
) -> Seq<char> {
    "\t"@ + name + "Tag"@ + pascal_of(variants[i].0@) + " "@ + name + "Tag = \""@ + variants[i].0@
        + "\"\n"@
}

pub open spec fn spec_sum_tag_lines_upto(
    name: Seq<char>,
    variants: Seq<(String, AlgebraicTypeUse)>,
    n: int,
) -> Seq<char>
    decreases n,
{
    if n <= 0 {
        Seq::empty()
    } else {
        spec_sum_tag_lines_upto(name, variants, n - 1) + spec_sum_tag_line(name, variants, n - 1)
    }
}

/// The rendered body of a sum type definition: a closed set of string tag
/// constants plus a tagged-value aggregate holding the active tag and an
/// untyped payload slot.
pub open spec fn spec_sum_type_text(name: Seq<char>, s: SumTypeDef) -> Seq<char> {
    "type "@ + name + "Tag string\n"@ + "\n"@ + "const (\n"@ + spec_sum_tag_lines_upto(
        name,
        s.variants@,
        s.variants@.len() as int,
    ) + ")\n"@ + "\n"@ + "type "@ + name + " struct {\n"@ + "\tTag   "@ + name
        + "Tag `json:\"tag\"`\n"@ + "\tValue any         `json:\"value,omitempty\"`\n"@ + "}\n"@
}

/// Appends the rendered sum type definition to `out`.
pub fn write_sum_type(out: &mut String, ty_name: &str, sum: &SumTypeDef)
    ensures
        final(out)@ == old(out)@ + spec_sum_type_text(ty_name@, *sum),
{
    out.append("type ");
    out.append(ty_name);
    out.append("Tag string\n");
    out.append("\n");
    out.append("const (\n");
    let ghost prefix = out@;
    let mut i: usize = 0;
    while i < sum.variants.len()
        invariant
            i <= sum.variants@.len(),
            out@ == prefix + spec_sum_tag_lines_upto(ty_name@, sum.variants@, i as int),
        decreases sum.variants@.len() - i,
    {
        let variant = &sum.variants[i];
        out.append("\t");
        out.append(ty_name);
        out.append("Tag");
        let tag = to_pascal_case(variant.0.as_str());
        out.append(tag.as_str());
        out.append(" ");
        out.append(ty_name);
        out.append("Tag = \"");
        out.append(variant.0.as_str());
        out.append("\"\n");
        proof {
            assert(out@ =~= prefix + spec_sum_tag_lines_upto(ty_name@, sum.variants@, i + 1));
        }
        i = i + 1;
    }
    out.append(")\n");
    out.append("\n");
    out.append("type ");
    out.append(ty_name);
    out.append(" struct {\n");
    out.append("\tTag   ");
    out.append(ty_name);
    out.append("Tag `json:\"tag\"`\n");
    out.append("\tValue any         `json:\"value,omitempty\"`\n");
    out.append("}\n");
    proof {
        assert(out@ =~= old(out)@ + spec_sum_type_text(ty_name@, *sum));
    }
}

/// One rendered plain-enum constant line. The first constant is bound to the
/// ordinal seed; the later ones inherit successive ordinals from it.
pub open spec fn spec_enum_const_line(name: Seq<char>, variants: Seq<String>, i: int) -> Seq<
    char,
> {
    if i == 0 {
        "\t"@ + name + pascal_of(variants[i]@) + " "@ + name + " = iota\n"@
    } else {
        "\t"@ + name + pascal_of(variants[i]@) + "\n"@
    }
}

pub open spec fn spec_enum_const_lines_upto(
    name: Seq<char>,
    variants: Seq<String>,
    n: int,
) -> Seq<char>
    decreases n,
{
    if n <= 0 {
        Seq::empty()
    } else {
        spec_enum_const_lines_upto(name, variants, n - 1) + spec_enum_const_line(
            name,
            variants,
            n - 1,
        )
    }
}

/// The rendered body of a plain enum definition: a small integer type with
/// one ordinal constant per variant, in declaration order starting at zero.
pub open spec fn spec_plain_enum_text(name: Seq<char>, e: PlainEnumTypeDef) -> Seq<char> {
    "type "@ + name + " uint8\n"@ + "\n"@ + "const (\n"@ + spec_enum_const_lines_upto(
        name,
        e.variants@,
        e.variants@.len() as int,
    ) + ")\n"@
}

/// Appends the rendered plain enum definition to `out`.
pub fn write_plain_enum_type(out: &mut String, ty_name: &str, plain_enum: &PlainEnumTypeDef)
    ensures
        final(out)@ == old(out)@ + spec_plain_enum_text(ty_name@, *plain_enum),
{
    out.append("type ");
    out.append(ty_name);
    out.append(" uint8\n");
    out.append("\n");
    out.append("const (\n");
    let ghost prefix = out@;
    let mut i: usize = 0;
    while i < plain_enum.variants.len()
        invariant
            i <= plain_enum.variants@.len(),
            out@ == prefix + spec_enum_const_lines_upto(ty_name@, plain_enum.variants@, i as int),
        decreases plain_enum.variants@.len() - i,
    {
        out.append("\t");
        out.append(ty_name);
        let v = to_pascal_case(plain_enum.variants[i].as_str());
        out.append(v.as_str());
        if i == 0 {
            out.append(" ");
            out.append(ty_name);
            out.append(" = iota\n");
        } else {
            out.append("\n");
        }
        proof {
            assert(out@ =~= prefix + spec_enum_const_lines_upto(
                ty_name@,
                plain_enum.variants@,
                i + 1,
            ));
        }
        i = i + 1;
    }
    out.append(")\n");
    proof {
        assert(out@ =~= old(out)@ + spec_plain_enum_text(ty_name@, *plain_enum));
    }
}

/// One rendered import line inside the header's import block.
pub open spec fn spec_import_line(imports: Seq<Seq<char>>, i: int) -> Seq<char> {
    "\t\""@ + imports[i] + "\"\n"@
}

pub open spec fn spec_import_lines_upto(imports: Seq<Seq<char>>, n: int) -> Seq<char>
    decreases n,
{
    if n <= 0 {
        Seq::empty()
    } else {
        spec_import_lines_upto(imports, n - 1) + spec_import_line(imports, n - 1)
    }
}

/// The fixed two-line banner and package declaration every generated file
/// starts with, followed by an import block when any import is required.
pub open spec fn spec_header(imports: Seq<Seq<char>>) -> Seq<char> {
    let banner =
        "// THIS FILE IS AUTOMATICALLY GENERATED BY SPACETIMEDB. EDITS TO THIS FILE\n"@
        + "// WILL NOT BE SAVED. MODIFY TABLES IN YOUR MODULE SOURCE CODE INSTEAD.\n"@ + "\n"@
        + "package module_bindings\n"@;
    if imports.len() == 0 {
        banner + "\n"@
    } else {
        banner + "\n"@ + "import (\n"@ + spec_import_lines_upto(imports, imports.len() as int)
            + ")\n"@ + "\n"@
    }
}

/// The views of a list of import path strings.
pub open spec fn import_views(imports: Seq<String>) -> Seq<Seq<char>> {
    imports.map_values(|s: String| s@)
}

/// Appends the generated-file header to `out`, with the given import paths.
pub fn print_go_header(out: &mut String, imports: &Vec<String>)
    ensures
        final(out)@ == old(out)@ + spec_header(import_views(imports@)),
{
    out.append("// THIS FILE IS AUTOMATICALLY GENERATED BY SPACETIMEDB. EDITS TO THIS FILE\n");
    out.append("// WILL NOT BE SAVED. MODIFY TABLES IN YOUR MODULE SOURCE CODE INSTEAD.\n");
    out.append("\n");
    out.append("package module_bindings\n");
    out.append("\n");
    if imports.len() == 0 {
        proof {
            assert(out@ =~= old(out)@ + spec_header(import_views(imports@)));
        }
        return ;
    }
    out.append("import (\n");
    let ghost prefix = out@;
    let ghost views = import_views(imports@);
    let mut i: usize = 0;
    while i < imports.len()
        invariant
            i <= imports@.len(),
            views == import_views(imports@),
            out@ == prefix + spec_import_lines_upto(views, i as int),
        decreases imports@.len() - i,
    {
        out.append("\t\"");
        out.append(imports[i].as_str());
        out.append("\"\n");
        proof {
            assert(views[i as int] == imports@[i as int]@);
            assert(out@ =~= prefix + spec_import_lines_upto(views, i + 1));
        }
        i = i + 1;
    }
    out.append(")\n");
    out.append("\n");
    proof {
        assert(out@ =~= old(out)@ + spec_header(import_views(imports@)));
    }
}

} // verus!

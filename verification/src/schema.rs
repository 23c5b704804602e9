//! The resolved module schema that generation reads: a typespace of named
//! algebraic type definitions addressed by stable indices, plus the tables,
//! reducers and procedures defined over it.

use vstd::prelude::*;

verus! {

/// A primitive scalar shape. The two float widths name shapes of the wire
/// format; no floating-point value is ever held here.
#[derive(Clone, Copy, Debug, PartialEq, Eq, Structural)]
pub enum PrimitiveType {
    Bool,
    I8,
    U8,
    I16,
    U16,
    I32,
    U32,
    I64,
    U64,
    I128,
    U128,
    I256,
    U256,
    F32,
    F64,
}

/// A recursive description of a value's shape, either inline-structural or a
/// reference into the typespace by index.
pub enum AlgebraicTypeUse {
    Unit,
    Never,
    Identity,
    ConnectionId,
    Uuid,
    Timestamp,
    TimeDuration,
    ScheduleAt,
    OptionOf(Box<AlgebraicTypeUse>),
    ResultOf(Box<AlgebraicTypeUse>, Box<AlgebraicTypeUse>),
    Primitive(PrimitiveType),
    Str,
    ArrayOf(Box<AlgebraicTypeUse>),
    Ref(usize),
}

/// A product type: ordered named fields, each with a type-use.
pub struct ProductTypeDef {
    pub elements: Vec<(String, AlgebraicTypeUse)>,
}

/// A sum type: ordered named variants, each with a payload type-use.
pub struct SumTypeDef {
    pub variants: Vec<(String, AlgebraicTypeUse)>,
}

/// A plain enum: an ordered list of nullary variant names.
pub struct PlainEnumTypeDef {
    pub variants: Vec<String>,
}

/// One of the three shapes a named type definition can take.
pub enum AlgebraicTypeDef {
    Product(ProductTypeDef),
    Sum(SumTypeDef),
    PlainEnum(PlainEnumTypeDef),
}

/// A typespace entry: the segments of the type's scoped name, and its
/// definition. Entries are addressed by their index in the typespace.
pub struct TypeDecl {
    pub name_segments: Vec<String>,
    pub def: AlgebraicTypeDef,
}

/// A table: its wire name, its accessor name (used to derive generated
/// identifiers), and the typespace index of its row's product type.
pub struct TableDef {
    pub name: String,
    pub accessor_name: String,
    pub product_type_ref: usize,
}

/// A reducer: its wire name and its accessor name.
pub struct ReducerDef {
    pub name: String,
    pub accessor_name: String,
}

/// A procedure: its wire name and its accessor name. Structurally identical
/// to a reducer for generation purposes.
pub struct ProcedureDef {
    pub name: String,
    pub accessor_name: String,
}

/// A resolved module schema snapshot. Read-only input to generation.
pub struct ModuleDef {
    pub typespace: Vec<TypeDecl>,
    pub tables: Vec<TableDef>,
    pub reducers: Vec<ReducerDef>,
    pub procedures: Vec<ProcedureDef>,
}

/// Every typespace reference inside `ty` is an index below `n`.
pub open spec fn use_refs_valid(ty: AlgebraicTypeUse, n: int) -> bool
    decreases ty,
{
    match ty {
        AlgebraicTypeUse::OptionOf(inner) => use_refs_valid(*inner, n),
        AlgebraicTypeUse::ArrayOf(inner) => use_refs_valid(*inner, n),
        AlgebraicTypeUse::ResultOf(ok_ty, err_ty) => use_refs_valid(*ok_ty, n) && use_refs_valid(
            *err_ty,
            n,
        ),
        AlgebraicTypeUse::Ref(r) => (r as int) < n,
        _ => true,
    }
}

/// Every typespace reference inside the definition `def` is an index below `n`.
pub open spec fn def_refs_valid(def: AlgebraicTypeDef, n: int) -> bool {
    match def {
        AlgebraicTypeDef::Product(p) => forall|i: int|
            0 <= i < p.elements@.len() ==> use_refs_valid(#[trigger] p.elements@[i].1, n),
        AlgebraicTypeDef::Sum(s) => forall|i: int|
            0 <= i < s.variants@.len() ==> use_refs_valid(#[trigger] s.variants@[i].1, n),
        AlgebraicTypeDef::PlainEnum(_) => true,
    }
}

/// The schema invariant: every reference used anywhere resolves to an index
/// within the typespace.
pub open spec fn module_wf(m: ModuleDef) -> bool {
    &&& forall|i: int|
        0 <= i < m.typespace@.len() ==> def_refs_valid(
            (#[trigger] m.typespace@[i]).def,
            m.typespace@.len() as int,
        )
    &&& forall|i: int|
        0 <= i < m.tables@.len() ==> (#[trigger] m.tables@[i]).product_type_ref
            < m.typespace@.len()
}

/// Checks that every reference inside `ty` is an index below `n`.
pub fn use_refs_ok(ty: &AlgebraicTypeUse, n: usize) -> (r: bool)
    ensures
        r == use_refs_valid(*ty, n as int),
    decreases *ty,
{
    match ty {
        AlgebraicTypeUse::OptionOf(inner) => use_refs_ok(inner, n),
        AlgebraicTypeUse::ArrayOf(inner) => use_refs_ok(inner, n),
        AlgebraicTypeUse::ResultOf(ok_ty, err_ty) => use_refs_ok(ok_ty, n) && use_refs_ok(
            err_ty,
            n,
        ),
        AlgebraicTypeUse::Ref(r) => *r < n,
        _ => true,
    }
}

fn elements_refs_ok(elems: &Vec<(String, AlgebraicTypeUse)>, n: usize) -> (r: bool)
    ensures
        r == forall|i: int|
            0 <= i < elems@.len() ==> use_refs_valid((#[trigger] elems@[i]).1, n as int),
{
    let mut i: usize = 0;
    while i < elems.len()
        invariant
            i <= elems@.len(),
            forall|k: int| 0 <= k < i ==> use_refs_valid((#[trigger] elems@[k]).1, n as int),
        decreases elems@.len() - i,
    {
        if !use_refs_ok(&elems[i].1, n) {
            return false;
        }
        i = i + 1;
    }
    true
}

/// Checks that every reference inside `def` is an index below `n`.
pub fn def_refs_ok(def: &AlgebraicTypeDef, n: usize) -> (r: bool)
    ensures
        r == def_refs_valid(*def, n as int),
{
    match def {
        AlgebraicTypeDef::Product(p) => elements_refs_ok(&p.elements, n),
        AlgebraicTypeDef::Sum(s) => elements_refs_ok(&s.variants, n),
        AlgebraicTypeDef::PlainEnum(_) => true,
    }
}

/// Checks the schema invariant: every reference used anywhere in the module
/// resolves to an index within the typespace.
pub fn module_refs_ok(m: &ModuleDef) -> (r: bool)
    ensures
        r == module_wf(*m),
{
    let n = m.typespace.len();
    let mut i: usize = 0;
    while i < m.typespace.len()
        invariant
            i <= m.typespace@.len(),
            n == m.typespace@.len(),
            forall|k: int|
                0 <= k < i ==> def_refs_valid(
                    (#[trigger] m.typespace@[k]).def,
                    m.typespace@.len() as int,
                ),
        decreases m.typespace@.len() - i,
    {
        if !def_refs_ok(&m.typespace[i].def, n) {
            return false;
        }
        i = i + 1;
    }
    let mut i: usize = 0;
    while i < m.tables.len()
        invariant
            i <= m.tables@.len(),
            n == m.typespace@.len(),
            forall|k: int|
                0 <= k < m.typespace@.len() ==> def_refs_valid(
                    (#[trigger] m.typespace@[k]).def,
                    m.typespace@.len() as int,
                ),
            forall|k: int|
                0 <= k < i ==> (#[trigger] m.tables@[k]).product_type_ref < m.typespace@.len(),
        decreases m.tables@.len() - i,
    {
        if !(m.tables[i].product_type_ref < n) {
            return false;
        }
        i = i + 1;
    }
    true
}

} // verus!

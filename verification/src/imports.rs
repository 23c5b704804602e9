//! The import resolver: which support-library references a rendered type
//! needs. Resolution walks the type graph through typespace references; the
//! graph may be cyclic, so the walk tracks visited indices and is stated
//! against the set of references reachable from the root.

use vstd::prelude::*;

use crate::schema::{
    AlgebraicTypeDef, AlgebraicTypeUse, ModuleDef, PrimitiveType, ProductTypeDef, SumTypeDef,
    TypeDecl, def_refs_valid, module_wf, use_refs_valid,
};

verus! {

/// The typespace indices referenced directly by `ty` (not through other
/// referenced definitions).
pub open spec fn direct_refs_use(ty: AlgebraicTypeUse) -> Set<int>
    decreases ty,
{
    match ty {
        AlgebraicTypeUse::OptionOf(inner) => direct_refs_use(*inner),
        AlgebraicTypeUse::ArrayOf(inner) => direct_refs_use(*inner),
        AlgebraicTypeUse::ResultOf(ok_ty, err_ty) => direct_refs_use(*ok_ty).union(
            direct_refs_use(*err_ty),
        ),
        AlgebraicTypeUse::Ref(r) => Set::empty().insert(r as int),
        _ => Set::empty(),
    }
}

/// The typespace indices referenced directly by any of the given elements'
/// type-uses.
pub open spec fn direct_refs_elements(elems: Seq<(String, AlgebraicTypeUse)>) -> Set<int> {
    Set::new(
        |x: int|
            exists|k: int|
                0 <= k < elems.len() && direct_refs_use(#[trigger] elems[k].1).contains(x),
    )
}

/// The typespace indices referenced directly by the definition `def`.
pub open spec fn direct_refs_def(def: AlgebraicTypeDef) -> Set<int> {
    match def {
        AlgebraicTypeDef::Product(p) => direct_refs_elements(p.elements@),
        AlgebraicTypeDef::Sum(s) => direct_refs_elements(s.variants@),
        AlgebraicTypeDef::PlainEnum(_) => Set::empty(),
    }
}

/// `s` contains the base indices and is closed under following the direct
/// references of every definition it contains.
pub open spec fn closed_over(ts: Seq<TypeDecl>, base: Set<int>, s: Set<int>) -> bool {
    &&& base.subset_of(s)
    &&& forall|r: int|
        s.contains(r) && 0 <= r < ts.len() ==> direct_refs_def((#[trigger] ts[r]).def).subset_of(s)
}

/// The set of typespace indices reachable from the base indices: the least
/// set containing the base and closed under following references.
pub open spec fn reach_from(ts: Seq<TypeDecl>, base: Set<int>) -> Set<int> {
    Set::new(
        |x: int| forall|s: Set<int>| #[trigger] closed_over(ts, base, s) ==> s.contains(x),
    )
}

pub proof fn lemma_reach_base(ts: Seq<TypeDecl>, base: Set<int>)
    ensures
        base.subset_of(reach_from(ts, base)),
{
    assert forall|x: int| base.contains(x) implies reach_from(ts, base).contains(x) by {
        assert forall|s: Set<int>| #[trigger] closed_over(ts, base, s) implies s.contains(x) by {}
    }
}

pub proof fn lemma_reach_closed(ts: Seq<TypeDecl>, base: Set<int>)
    ensures
        closed_over(ts, base, reach_from(ts, base)),
{
    lemma_reach_base(ts, base);
    assert forall|r: int|
        reach_from(ts, base).contains(r) && 0 <= r < ts.len() implies direct_refs_def(
        (#[trigger] ts[r]).def,
    ).subset_of(reach_from(ts, base)) by {
        assert forall|x: int|
            direct_refs_def(ts[r].def).contains(x) implies reach_from(ts, base).contains(x) by {
            assert forall|s: Set<int>| #[trigger] closed_over(ts, base, s) implies s.contains(
                x,
            ) by {
                assert(s.contains(r));
            }
        }
    }
}

pub proof fn lemma_reach_minimal(ts: Seq<TypeDecl>, base: Set<int>, s: Set<int>)
    requires
        closed_over(ts, base, s),
    ensures
        reach_from(ts, base).subset_of(s),
{
}

/// Whether the shape `ty` itself (not through references) uses a native
/// time type.
pub open spec fn use_needs_time(ty: AlgebraicTypeUse) -> bool
    decreases ty,
{
    match ty {
        AlgebraicTypeUse::Timestamp => true,
        AlgebraicTypeUse::TimeDuration => true,
        AlgebraicTypeUse::OptionOf(inner) => use_needs_time(*inner),
        AlgebraicTypeUse::ArrayOf(inner) => use_needs_time(*inner),
        AlgebraicTypeUse::ResultOf(ok_ty, err_ty) => use_needs_time(*ok_ty) || use_needs_time(
            *err_ty,
        ),
        _ => false,
    }
}

/// Whether the shape `ty` itself uses an integer width that maps to the
/// arbitrary-precision integer type.
pub open spec fn use_needs_big(ty: AlgebraicTypeUse) -> bool
    decreases ty,
{
    match ty {
        AlgebraicTypeUse::Primitive(p) => p == PrimitiveType::I128 || p == PrimitiveType::U128
            || p == PrimitiveType::I256 || p == PrimitiveType::U256,
        AlgebraicTypeUse::OptionOf(inner) => use_needs_big(*inner),
        AlgebraicTypeUse::ArrayOf(inner) => use_needs_big(*inner),
        AlgebraicTypeUse::ResultOf(ok_ty, err_ty) => use_needs_big(*ok_ty) || use_needs_big(
            *err_ty,
        ),
        _ => false,
    }
}

pub open spec fn elements_need_time(elems: Seq<(String, AlgebraicTypeUse)>) -> bool {
    exists|k: int| 0 <= k < elems.len() && use_needs_time(#[trigger] elems[k].1)
}

pub open spec fn elements_need_big(elems: Seq<(String, AlgebraicTypeUse)>) -> bool {
    exists|k: int| 0 <= k < elems.len() && use_needs_big(#[trigger] elems[k].1)
}

/// Whether any field or variant payload of `def` itself uses a time type.
pub open spec fn def_needs_time(def: AlgebraicTypeDef) -> bool {
    match def {
        AlgebraicTypeDef::Product(p) => elements_need_time(p.elements@),
        AlgebraicTypeDef::Sum(s) => elements_need_time(s.variants@),
        AlgebraicTypeDef::PlainEnum(_) => false,
    }
}

/// Whether any field or variant payload of `def` itself uses a wide integer.
pub open spec fn def_needs_big(def: AlgebraicTypeDef) -> bool {
    match def {
        AlgebraicTypeDef::Product(p) => elements_need_big(p.elements@),
        AlgebraicTypeDef::Sum(s) => elements_need_big(s.variants@),
        AlgebraicTypeDef::PlainEnum(_) => false,
    }
}

/// Whether some definition reachable from the base indices needs a time type.
pub open spec fn reach_needs_time(ts: Seq<TypeDecl>, base: Set<int>) -> bool {
    exists|r: int|
        reach_from(ts, base).contains(r) && 0 <= r < ts.len() && def_needs_time(
            (#[trigger] ts[r]).def,
        )
}

/// Whether some definition reachable from the base indices needs a wide
/// integer.
pub open spec fn reach_needs_big(ts: Seq<TypeDecl>, base: Set<int>) -> bool {
    exists|r: int|
        reach_from(ts, base).contains(r) && 0 <= r < ts.len() && def_needs_big(
            (#[trigger] ts[r]).def,
        )
}

/// The support-library imports required to render a shape: a time-support
/// import and an arbitrary-precision-integer import.
#[derive(Clone, Copy, Debug, PartialEq, Eq, Structural)]
pub struct GoImports {
    pub time: bool,
    pub big: bool,
}

/// The imports required by the type-use `ty`, following references.
pub open spec fn spec_use_imports(m: ModuleDef, ty: AlgebraicTypeUse) -> GoImports {
    GoImports {
        time: use_needs_time(ty) || reach_needs_time(m.typespace@, direct_refs_use(ty)),
        big: use_needs_big(ty) || reach_needs_big(m.typespace@, direct_refs_use(ty)),
    }
}

/// The imports required by the definition `def`, following references.
pub open spec fn spec_def_imports(m: ModuleDef, def: AlgebraicTypeDef) -> GoImports {
    GoImports {
        time: def_needs_time(def) || reach_needs_time(m.typespace@, direct_refs_def(def)),
        big: def_needs_big(def) || reach_needs_big(m.typespace@, direct_refs_def(def)),
    }
}

fn use_has_time(ty: &AlgebraicTypeUse) -> (b: bool)
    ensures
        b == use_needs_time(*ty),
    decreases *ty,
{
    match ty {
        AlgebraicTypeUse::Timestamp => true,
        AlgebraicTypeUse::TimeDuration => true,
        AlgebraicTypeUse::OptionOf(inner) => use_has_time(inner),
        AlgebraicTypeUse::ArrayOf(inner) => use_has_time(inner),
        AlgebraicTypeUse::ResultOf(ok_ty, err_ty) => use_has_time(ok_ty) || use_has_time(err_ty),
        _ => false,
    }
}

fn use_has_big(ty: &AlgebraicTypeUse) -> (b: bool)
    ensures
        b == use_needs_big(*ty),
    decreases *ty,
{
    match ty {
        AlgebraicTypeUse::Primitive(p) => match p {
            PrimitiveType::I128 => true,
            PrimitiveType::U128 => true,
            PrimitiveType::I256 => true,
            PrimitiveType::U256 => true,
            _ => false,
        },
        AlgebraicTypeUse::OptionOf(inner) => use_has_big(inner),
        AlgebraicTypeUse::ArrayOf(inner) => use_has_big(inner),
        AlgebraicTypeUse::ResultOf(ok_ty, err_ty) => use_has_big(ok_ty) || use_has_big(err_ty),
        _ => false,
    }
}

fn elements_have_time(elems: &Vec<(String, AlgebraicTypeUse)>) -> (b: bool)
    ensures
        b == elements_need_time(elems@),
{
    let mut k: usize = 0;
    while k < elems.len()
        invariant
            k <= elems@.len(),
            forall|t: int| 0 <= t < k ==> !use_needs_time(#[trigger] elems@[t].1),
        decreases elems@.len() - k,
    {
        if use_has_time(&elems[k].1) {
            return true;
        }
        k = k + 1;
    }
    false
}

fn elements_have_big(elems: &Vec<(String, AlgebraicTypeUse)>) -> (b: bool)
    ensures
        b == elements_need_big(elems@),
{
    let mut k: usize = 0;
    while k < elems.len()
        invariant
            k <= elems@.len(),
            forall|t: int| 0 <= t < k ==> !use_needs_big(#[trigger] elems@[t].1),
        decreases elems@.len() - k,
    {
        if use_has_big(&elems[k].1) {
            return true;
        }
        k = k + 1;
    }
    false
}

fn def_has_time(def: &AlgebraicTypeDef) -> (b: bool)
    ensures
        b == def_needs_time(*def),
{
    match def {
        AlgebraicTypeDef::Product(p) => elements_have_time(&p.elements),
        AlgebraicTypeDef::Sum(s) => elements_have_time(&s.variants),
        AlgebraicTypeDef::PlainEnum(_) => false,
    }
}

fn def_has_big(def: &AlgebraicTypeDef) -> (b: bool)
    ensures
        b == def_needs_big(*def),
{
    match def {
        AlgebraicTypeDef::Product(p) => elements_have_big(&p.elements),
        AlgebraicTypeDef::Sum(s) => elements_have_big(&s.variants),
        AlgebraicTypeDef::PlainEnum(_) => false,
    }
}

/// The number of unvisited entries in a visited map.
pub open spec fn count_false(s: Seq<bool>) -> nat
    decreases s.len(),
{
    if s.len() == 0 {
        0
    } else {
        (if s[0] {
            0nat
        } else {
            1nat
        }) + count_false(s.drop_first())
    }
}

proof fn lemma_count_false_update(s: Seq<bool>, i: int)
    requires
        0 <= i < s.len(),
        !s[i],
    ensures
        count_false(s.update(i, true)) == count_false(s) - 1,
    decreases s.len(),
{
    if i == 0 {
        assert(s.update(0, true).drop_first() =~= s.drop_first());
    } else {
        lemma_count_false_update(s.drop_first(), i - 1);
        assert(s.update(i, true).drop_first() =~= s.drop_first().update(i - 1, true));
    }
}

proof fn lemma_use_refs_valid_direct(ty: AlgebraicTypeUse, n: int)
    requires
        use_refs_valid(ty, n),
    ensures
        forall|x: int| direct_refs_use(ty).contains(x) ==> 0 <= x < n,
    decreases ty,
{
    match ty {
        AlgebraicTypeUse::OptionOf(inner) => {
            lemma_use_refs_valid_direct(*inner, n);
            assert(direct_refs_use(ty) == direct_refs_use(*inner));
        },
        AlgebraicTypeUse::ArrayOf(inner) => {
            lemma_use_refs_valid_direct(*inner, n);
            assert(direct_refs_use(ty) == direct_refs_use(*inner));
        },
        AlgebraicTypeUse::ResultOf(ok_ty, err_ty) => {
            lemma_use_refs_valid_direct(*ok_ty, n);
            lemma_use_refs_valid_direct(*err_ty, n);
            assert(direct_refs_use(ty) == direct_refs_use(*ok_ty).union(direct_refs_use(*err_ty)));
        },
        AlgebraicTypeUse::Ref(r) => {
            assert(direct_refs_use(ty) == Set::empty().insert(r as int));
        },
        _ => {
            assert(direct_refs_use(ty) =~= Set::<int>::empty());
        },
    }
}

proof fn lemma_def_refs_valid_direct(def: AlgebraicTypeDef, n: int)
    requires
        def_refs_valid(def, n),
    ensures
        forall|x: int| direct_refs_def(def).contains(x) ==> 0 <= x < n,
{
    match def {
        AlgebraicTypeDef::Product(p) => {
            assert forall|x: int| direct_refs_def(def).contains(x) implies 0 <= x < n by {
                let k = choose|k: int|
                    0 <= k < p.elements@.len() && direct_refs_use(
                        #[trigger] p.elements@[k].1,
                    ).contains(x);
                lemma_use_refs_valid_direct(p.elements@[k].1, n);
            }
        },
        AlgebraicTypeDef::Sum(s) => {
            assert forall|x: int| direct_refs_def(def).contains(x) implies 0 <= x < n by {
                let k = choose|k: int|
                    0 <= k < s.variants@.len() && direct_refs_use(
                        #[trigger] s.variants@[k].1,
                    ).contains(x);
                lemma_use_refs_valid_direct(s.variants@[k].1, n);
            }
        },
        AlgebraicTypeDef::PlainEnum(_) => {},
    }
}

/// Marks, and queues for later expansion, every index that `ty` references
/// directly and that is not already visited.
fn mark_refs_of_use(ty: &AlgebraicTypeUse, visited: &mut Vec<bool>, stack: &mut Vec<usize>)
    requires
        use_refs_valid(*ty, old(visited)@.len() as int),
    ensures
        final(visited)@.len() == old(visited)@.len(),
        forall|j: int|
            0 <= j < old(visited)@.len() ==> ((#[trigger] final(visited)@[j]) <==> (old(
                visited,
            )@[j] || direct_refs_use(*ty).contains(j))),
        final(stack)@.len() >= old(stack)@.len(),
        forall|k: int| 0 <= k < old(stack)@.len() ==> final(stack)@[k] == old(stack)@[k],
        forall|k: int|
            old(stack)@.len() <= k < final(stack)@.len() ==> (((#[trigger] final(stack)@[k]) as int)
                < old(visited)@.len() && !old(visited)@[final(stack)@[k] as int]
                && final(visited)@[final(stack)@[k] as int]
                && direct_refs_use(*ty).contains(final(stack)@[k] as int)),
        forall|k1: int, k2: int|
            old(stack)@.len() <= k1 < k2 < final(stack)@.len() ==> final(stack)@[k1]
                != final(stack)@[k2],
        forall|j: int|
            0 <= j < old(visited)@.len() && !old(visited)@[j] && (#[trigger] final(visited)@[j])
                ==> final(stack)@.contains(j as usize),
        final(stack)@.len() - old(stack)@.len() == count_false(old(visited)@) - count_false(final(visited)@),
    decreases *ty,
{
    match ty {
        AlgebraicTypeUse::OptionOf(inner) => {
            mark_refs_of_use(inner, visited, stack);
            proof {
                assert(direct_refs_use(*ty) == direct_refs_use(**inner));
            }
        },
        AlgebraicTypeUse::ArrayOf(inner) => {
            mark_refs_of_use(inner, visited, stack);
            proof {
                assert(direct_refs_use(*ty) == direct_refs_use(**inner));
            }
        },
        AlgebraicTypeUse::ResultOf(ok_ty, err_ty) => {
            let ghost v0 = visited@;
            let ghost st0 = stack@;
            mark_refs_of_use(ok_ty, visited, stack);
            let ghost v1 = visited@;
            let ghost st1 = stack@;
            mark_refs_of_use(err_ty, visited, stack);
            proof {
                assert(direct_refs_use(*ty) == direct_refs_use(**ok_ty).union(
                    direct_refs_use(**err_ty),
                ));
                assert forall|j: int|
                    0 <= j < v0.len() implies ((#[trigger] visited@[j]) <==> (v0[j]
                    || direct_refs_use(*ty).contains(j))) by {
                    assert(visited@[j] <==> (v1[j] || direct_refs_use(**err_ty).contains(j)));
                    assert(v1[j] <==> (v0[j] || direct_refs_use(**ok_ty).contains(j)));
                }
                assert forall|k: int|
                    st0.len() <= k < stack@.len() implies (((#[trigger] stack@[k]) as int)
                    < v0.len() && !v0[stack@[k] as int] && visited@[stack@[k] as int]
                    && direct_refs_use(*ty).contains(stack@[k] as int)) by {
                    let e = stack@[k] as int;
                    if k < st1.len() {
                        assert(stack@[k] == st1[k]);
                        assert(!v0[e] && v1[e]);
                        assert(visited@[e] <==> (v1[e] || direct_refs_use(**err_ty).contains(e)));
                    } else {
                        assert(!v1[e] && visited@[e]);
                        assert(v1[e] <==> (v0[e] || direct_refs_use(**ok_ty).contains(e)));
                    }
                }
                assert forall|k1: int, k2: int|
                    st0.len() <= k1 < k2 < stack@.len() implies stack@[k1] != stack@[k2] by {
                    if k2 < st1.len() {
                        assert(stack@[k1] == st1[k1] && stack@[k2] == st1[k2]);
                    } else if k1 < st1.len() {
                        assert(stack@[k1] == st1[k1]);
                        assert(v1[st1[k1] as int]);
                        assert(!v1[stack@[k2] as int]);
                    }
                }
                assert forall|j: int|
                    0 <= j < v0.len() && !v0[j] && (#[trigger] visited@[j]) implies
                    stack@.contains(j as usize) by {
                    assert(v1[j] <==> (v0[j] || direct_refs_use(**ok_ty).contains(j)));
                    if v1[j] {
                        assert(st1.contains(j as usize));
                        let k = choose|k: int| 0 <= k < st1.len() && st1[k] == j as usize;
                        assert(stack@[k] == st1[k]);
                        assert(stack@.contains(j as usize));
                    }
                }
            }
        },
        AlgebraicTypeUse::Ref(r) => {
            proof {
                assert(direct_refs_use(*ty) == Set::empty().insert(*r as int));
            }
            if !visited[*r] {
                visited.set(*r, true);
                stack.push(*r);
                proof {
                    lemma_count_false_update(old(visited)@, *r as int);
                    assert(stack@[stack@.len() - 1] == *r);
                    assert(stack@.contains(*r));
                }
            }
        },
        _ => {
            proof {
                assert(direct_refs_use(*ty) =~= Set::<int>::empty());
            }
        },
    }
}

/// The union of the direct references of the first `n` elements.
pub open spec fn direct_refs_elements_upto(
    elems: Seq<(String, AlgebraicTypeUse)>,
    n: int,
) -> Set<int>
    decreases n,
{
    if n <= 0 {
        Set::empty()
    } else {
        direct_refs_elements_upto(elems, n - 1).union(direct_refs_use(elems[n - 1].1))
    }
}

proof fn lemma_direct_refs_elements_upto(elems: Seq<(String, AlgebraicTypeUse)>, n: int)
    requires
        0 <= n <= elems.len(),
    ensures
        forall|x: int|
            direct_refs_elements_upto(elems, n).contains(x) <==> exists|k: int|
                0 <= k < n && direct_refs_use(#[trigger] elems[k].1).contains(x),
    decreases n,
{
    if n > 0 {
        lemma_direct_refs_elements_upto(elems, n - 1);
        assert forall|x: int|
            direct_refs_elements_upto(elems, n).contains(x) implies exists|k: int|
            0 <= k < n && direct_refs_use(#[trigger] elems[k].1).contains(x) by {
            assert(direct_refs_elements_upto(elems, n) == direct_refs_elements_upto(
                elems,
                n - 1,
            ).union(direct_refs_use(elems[n - 1].1)));
            if direct_refs_elements_upto(elems, n - 1).contains(x) {
                let k = choose|k: int|
                    0 <= k < n - 1 && direct_refs_use(#[trigger] elems[k].1).contains(x);
                assert(0 <= k < n && direct_refs_use(elems[k].1).contains(x));
            } else {
                assert(direct_refs_use(elems[n - 1].1).contains(x));
            }
        }
        assert forall|x: int|
            (exists|k: int| 0 <= k < n && direct_refs_use(#[trigger] elems[k].1).contains(x))
            implies direct_refs_elements_upto(elems, n).contains(x) by {
            assert(direct_refs_elements_upto(elems, n) == direct_refs_elements_upto(
                elems,
                n - 1,
            ).union(direct_refs_use(elems[n - 1].1)));
            let k = choose|k: int|
                0 <= k < n && direct_refs_use(#[trigger] elems[k].1).contains(x);
            if k < n - 1 {
                assert(direct_refs_elements_upto(elems, n - 1).contains(x));
            }
        }
    }
}

proof fn lemma_direct_refs_elements_full(elems: Seq<(String, AlgebraicTypeUse)>)
    ensures
        direct_refs_elements_upto(elems, elems.len() as int) =~= direct_refs_elements(elems),
{
    lemma_direct_refs_elements_upto(elems, elems.len() as int);
}

/// Marks and queues every index referenced directly by any of the elements.
fn mark_refs_of_elements(
    elems: &Vec<(String, AlgebraicTypeUse)>,
    visited: &mut Vec<bool>,
    stack: &mut Vec<usize>,
)
    requires
        forall|k: int|
            0 <= k < elems@.len() ==> use_refs_valid(
                (#[trigger] elems@[k]).1,
                old(visited)@.len() as int,
            ),
    ensures
        final(visited)@.len() == old(visited)@.len(),
        forall|j: int|
            0 <= j < old(visited)@.len() ==> ((#[trigger] final(visited)@[j]) <==> (old(
                visited,
            )@[j] || direct_refs_elements(elems@).contains(j))),
        final(stack)@.len() >= old(stack)@.len(),
        forall|k: int| 0 <= k < old(stack)@.len() ==> final(stack)@[k] == old(stack)@[k],
        forall|k: int|
            old(stack)@.len() <= k < final(stack)@.len() ==> (((#[trigger] final(stack)@[k]) as int)
                < old(visited)@.len() && !old(visited)@[final(stack)@[k] as int]
                && final(visited)@[final(stack)@[k] as int]),
        forall|k1: int, k2: int|
            old(stack)@.len() <= k1 < k2 < final(stack)@.len() ==> final(stack)@[k1]
                != final(stack)@[k2],
        forall|j: int|
            0 <= j < old(visited)@.len() && !old(visited)@[j] && (#[trigger] final(visited)@[j])
                ==> final(stack)@.contains(j as usize),
        final(stack)@.len() - old(stack)@.len() == count_false(old(visited)@) - count_false(final(visited)@),
{
    let ghost v0 = old(visited)@;
    let ghost st0 = old(stack)@;
    let mut i: usize = 0;
    while i < elems.len()
        invariant
            i <= elems@.len(),
            visited@.len() == v0.len(),
            forall|k: int|
                0 <= k < elems@.len() ==> use_refs_valid((#[trigger] elems@[k]).1, v0.len() as int),
            forall|j: int|
                0 <= j < v0.len() ==> ((#[trigger] visited@[j]) <==> (v0[j]
                    || direct_refs_elements_upto(elems@, i as int).contains(j))),
            stack@.len() >= st0.len(),
            forall|k: int| 0 <= k < st0.len() ==> stack@[k] == st0[k],
            forall|k: int|
                st0.len() <= k < stack@.len() ==> (((#[trigger] stack@[k]) as int) < v0.len()
                    && !v0[stack@[k] as int] && visited@[stack@[k] as int]),
            forall|k1: int, k2: int|
                st0.len() <= k1 < k2 < stack@.len() ==> stack@[k1] != stack@[k2],
            forall|j: int|
                0 <= j < v0.len() && !v0[j] && (#[trigger] visited@[j]) ==> stack@.contains(
                    j as usize,
                ),
            stack@.len() - st0.len() == count_false(v0) - count_false(visited@),
        decreases elems@.len() - i,
    {
        let ghost v_pre = visited@;
        let ghost st_pre = stack@;
        mark_refs_of_use(&elems[i].1, visited, stack);
        proof {
            assert(direct_refs_elements_upto(elems@, i + 1) == direct_refs_elements_upto(
                elems@,
                i as int,
            ).union(direct_refs_use(elems@[i as int].1)));
            assert forall|j: int|
                0 <= j < v0.len() implies ((#[trigger] visited@[j]) <==> (v0[j]
                || direct_refs_elements_upto(elems@, i + 1).contains(j))) by {
                assert(visited@[j] <==> (v_pre[j] || direct_refs_use(
                    elems@[i as int].1,
                ).contains(j)));
                assert(v_pre[j] <==> (v0[j] || direct_refs_elements_upto(
                    elems@,
                    i as int,
                ).contains(j)));
            }
            assert forall|k: int|
                st0.len() <= k < stack@.len() implies (((#[trigger] stack@[k]) as int) < v0.len()
                && !v0[stack@[k] as int] && visited@[stack@[k] as int]) by {
                let e = stack@[k] as int;
                if k < st_pre.len() {
                    assert(stack@[k] == st_pre[k]);
                    assert(!v0[e] && v_pre[e]);
                    assert(visited@[e] <==> (v_pre[e] || direct_refs_use(
                        elems@[i as int].1,
                    ).contains(e)));
                } else {
                    assert(!v_pre[e] && visited@[e]);
                    assert(v_pre[e] <==> (v0[e] || direct_refs_elements_upto(
                        elems@,
                        i as int,
                    ).contains(e)));
                }
            }
            assert forall|k1: int, k2: int|
                st0.len() <= k1 < k2 < stack@.len() implies stack@[k1] != stack@[k2] by {
                if k2 < st_pre.len() {
                    assert(stack@[k1] == st_pre[k1] && stack@[k2] == st_pre[k2]);
                } else if k1 < st_pre.len() {
                    assert(stack@[k1] == st_pre[k1]);
                    assert(v_pre[st_pre[k1] as int]);
                    assert(!v_pre[stack@[k2] as int]);
                }
            }
            assert forall|j: int|
                0 <= j < v0.len() && !v0[j] && (#[trigger] visited@[j]) implies stack@.contains(
                j as usize,
            ) by {
                assert(v_pre[j] <==> (v0[j] || direct_refs_elements_upto(
                    elems@,
                    i as int,
                ).contains(j)));
                if v_pre[j] {
                    assert(st_pre.contains(j as usize));
                    let k = choose|k: int| 0 <= k < st_pre.len() && st_pre[k] == j as usize;
                    assert(stack@[k] == st_pre[k]);
                    assert(stack@.contains(j as usize));
                }
            }
        }
        i = i + 1;
    }
    proof {
        lemma_direct_refs_elements_full(elems@);
    }
}


/// The set of indices a visited map marks.
pub open spec fn marked_set(v: Seq<bool>) -> Set<int> {
    Set::new(|j: int| 0 <= j < v.len() && v[j])
}

/// Expands queued typespace indices until none is left, so that the visited
/// map marks exactly the indices reachable from `base`.
fn drain_marks(
    m: &ModuleDef,
    visited: &mut Vec<bool>,
    stack: &mut Vec<usize>,
    Ghost(base): Ghost<Set<int>>,
)
    requires
        module_wf(*m),
        old(visited)@.len() == m.typespace@.len(),
        forall|x: int| base.contains(x) ==> 0 <= x < m.typespace@.len() && old(visited)@[x],
        forall|k: int|
            0 <= k < old(stack)@.len() ==> (((#[trigger] old(stack)@[k]) as int)
                < m.typespace@.len() && old(visited)@[old(stack)@[k] as int]),
        forall|k1: int, k2: int|
            0 <= k1 < k2 < old(stack)@.len() ==> old(stack)@[k1] != old(stack)@[k2],
        forall|j: int|
            0 <= j < m.typespace@.len() && old(visited)@[j] && !old(stack)@.contains(j as usize)
                ==> direct_refs_def((#[trigger] m.typespace@[j]).def).subset_of(
                marked_set(old(visited)@),
            ),
        forall|s: Set<int>|
            #[trigger] closed_over(m.typespace@, base, s) ==> (forall|j: int|
                0 <= j < m.typespace@.len() && old(visited)@[j] ==> s.contains(j)),
    ensures
        final(visited)@.len() == m.typespace@.len(),
        forall|j: int|
            0 <= j < m.typespace@.len() ==> ((#[trigger] final(visited)@[j]) <==> reach_from(
                m.typespace@,
                base,
            ).contains(j)),
{
    let ghost ts = m.typespace@;
    while stack.len() != 0
        invariant
            module_wf(*m),
            ts == m.typespace@,
            visited@.len() == ts.len(),
            forall|x: int| base.contains(x) ==> 0 <= x < ts.len() && visited@[x],
            forall|k: int|
                0 <= k < stack@.len() ==> (((#[trigger] stack@[k]) as int) < ts.len()
                    && visited@[stack@[k] as int]),
            forall|k1: int, k2: int| 0 <= k1 < k2 < stack@.len() ==> stack@[k1] != stack@[k2],
            forall|j: int|
                0 <= j < ts.len() && visited@[j] && !stack@.contains(j as usize)
                    ==> direct_refs_def((#[trigger] ts[j]).def).subset_of(marked_set(visited@)),
            forall|s: Set<int>|
                #[trigger] closed_over(ts, base, s) ==> (forall|j: int|
                    0 <= j < ts.len() && visited@[j] ==> s.contains(j)),
        decreases 2 * count_false(visited@) + stack@.len(),
    {
        let ghost v_in = visited@;
        let ghost st_in = stack@;
        let r = match stack.pop() {
            Some(r) => r,
            None => {
                proof {
                    assert(false);
                }
                0
            },
        };
        proof {
            assert(st_in[st_in.len() - 1] == r);
            assert((r as int) < ts.len() && v_in[r as int]);
            assert forall|k: int| 0 <= k < stack@.len() implies stack@[k] != r by {
                assert(stack@[k] == st_in[k]);
            }
            assert(!stack@.contains(r));
            assert(def_refs_valid(ts[r as int].def, ts.len() as int));
        }
        let ghost st_mid = stack@;
        match &m.typespace[r].def {
            AlgebraicTypeDef::Product(p) => {
                mark_refs_of_elements(&p.elements, visited, stack);
                proof {
                    assert(direct_refs_def(ts[r as int].def) == direct_refs_elements(p.elements@));
                }
            },
            AlgebraicTypeDef::Sum(sd) => {
                mark_refs_of_elements(&sd.variants, visited, stack);
                proof {
                    assert(direct_refs_def(ts[r as int].def) == direct_refs_elements(sd.variants@));
                }
            },
            AlgebraicTypeDef::PlainEnum(_) => {
                proof {
                    assert(direct_refs_def(ts[r as int].def) =~= Set::<int>::empty());
                }
            },
        }
        proof {
            lemma_def_refs_valid_direct(ts[r as int].def, ts.len() as int);
            // the popped index is fully expanded: its direct references are marked
            assert forall|x: int|
                direct_refs_def(ts[r as int].def).contains(x) implies marked_set(
                visited@,
            ).contains(x) by {
                assert(0 <= x < ts.len());
                assert(visited@[x] <==> (v_in[x] || direct_refs_def(ts[r as int].def).contains(x)));
            }
            // the popped index did not re-enter the queue
            assert forall|k: int| 0 <= k < stack@.len() implies stack@[k] != r by {
                if k < st_mid.len() {
                    assert(stack@[k] == st_mid[k]);
                } else {
                    assert(!v_in[stack@[k] as int]);
                }
            }
            // defect is restored for every marked, unqueued index
            assert forall|j: int|
                0 <= j < ts.len() && visited@[j] && !stack@.contains(j as usize)
                implies direct_refs_def((#[trigger] ts[j]).def).subset_of(marked_set(visited@)) by {
                if j == r as int {
                } else if v_in[j] {
                    if st_in.contains(j as usize) {
                        let k = choose|k: int| 0 <= k < st_in.len() && st_in[k] == j as usize;
                        assert(visited@.len() == visited.len());
                        assert((j as usize) as int == j);
                        if k == st_in.len() - 1 {
                            assert(st_in[k] == r);
                            assert(j == r as int);
                            assert(false);
                        }
                        assert(st_mid[k] == st_in[k]);
                        assert(stack@[k] == st_mid[k]);
                        assert(stack@.contains(j as usize));
                        assert(false);
                    } else {
                        assert(direct_refs_def(ts[j].def).subset_of(marked_set(v_in)));
                        assert forall|x: int|
                            direct_refs_def(ts[j].def).contains(x) implies marked_set(
                            visited@,
                        ).contains(x) by {
                            assert(marked_set(v_in).contains(x));
                            assert(visited@[x] <==> (v_in[x] || direct_refs_def(
                                ts[r as int].def,
                            ).contains(x)));
                        }
                    }
                } else {
                    assert(stack@.contains(j as usize));
                    assert(false);
                }
            }
            // soundness: every marked index lies in every closed superset
            assert forall|s: Set<int>| #[trigger] closed_over(ts, base, s) implies (forall|j: int|
                0 <= j < ts.len() && visited@[j] ==> s.contains(j)) by {
                assert forall|j: int| 0 <= j < ts.len() && visited@[j] implies s.contains(j) by {
                    if !v_in[j] {
                        assert(direct_refs_def(ts[r as int].def).contains(j));
                        assert(s.contains(r as int));
                        assert(direct_refs_def(ts[r as int].def).subset_of(s));
                    }
                }
            }
        }
    }
    proof {
        assert(closed_over(ts, base, marked_set(visited@)));
        lemma_reach_minimal(ts, base, marked_set(visited@));
        lemma_reach_closed(ts, base);
        assert forall|j: int|
            0 <= j < ts.len() implies ((#[trigger] visited@[j]) <==> reach_from(
            ts,
            base,
        ).contains(j)) by {
            if visited@[j] {
                assert(reach_from(ts, base).contains(j));
            }
            if reach_from(ts, base).contains(j) {
                assert(marked_set(visited@).contains(j));
            }
        }
    }
}

fn scan_needs_time(module: &ModuleDef, visited: &Vec<bool>) -> (b: bool)
    requires
        visited@.len() == module.typespace@.len(),
    ensures
        b == exists|j: int|
            0 <= j < module.typespace@.len() && visited@[j] && def_needs_time(
                (#[trigger] module.typespace@[j]).def,
            ),
{
    let mut j: usize = 0;
    while j < module.typespace.len()
        invariant
            visited@.len() == module.typespace@.len(),
            j <= module.typespace@.len(),
            forall|t: int|
                0 <= t < j ==> !(visited@[t] && def_needs_time(
                    (#[trigger] module.typespace@[t]).def,
                )),
        decreases module.typespace@.len() - j,
    {
        if visited[j] && def_has_time(&module.typespace[j].def) {
            return true;
        }
        j = j + 1;
    }
    false
}

fn scan_needs_big(module: &ModuleDef, visited: &Vec<bool>) -> (b: bool)
    requires
        visited@.len() == module.typespace@.len(),
    ensures
        b == exists|j: int|
            0 <= j < module.typespace@.len() && visited@[j] && def_needs_big(
                (#[trigger] module.typespace@[j]).def,
            ),
{
    let mut j: usize = 0;
    while j < module.typespace.len()
        invariant
            visited@.len() == module.typespace@.len(),
            j <= module.typespace@.len(),
            forall|t: int|
                0 <= t < j ==> !(visited@[t] && def_needs_big(
                    (#[trigger] module.typespace@[t]).def,
                )),
        decreases module.typespace@.len() - j,
    {
        if visited[j] && def_has_big(&module.typespace[j].def) {
            return true;
        }
        j = j + 1;
    }
    false
}

proof fn lemma_scan_matches_reach(ts: Seq<TypeDecl>, base: Set<int>, v: Seq<bool>)
    requires
        v.len() == ts.len(),
        forall|j: int|
            0 <= j < ts.len() ==> ((#[trigger] v[j]) <==> reach_from(ts, base).contains(j)),
    ensures
        (exists|j: int|
            0 <= j < ts.len() && v[j] && def_needs_time((#[trigger] ts[j]).def))
            == reach_needs_time(ts, base),
        (exists|j: int|
            0 <= j < ts.len() && v[j] && def_needs_big((#[trigger] ts[j]).def)) == reach_needs_big(
            ts,
            base,
        ),
{
    if exists|j: int| 0 <= j < ts.len() && v[j] && def_needs_time((#[trigger] ts[j]).def) {
        let j = choose|j: int| 0 <= j < ts.len() && v[j] && def_needs_time((#[trigger] ts[j]).def);
        assert(reach_from(ts, base).contains(j));
        assert(reach_needs_time(ts, base));
    }
    if reach_needs_time(ts, base) {
        let r = choose|r: int|
            reach_from(ts, base).contains(r) && 0 <= r < ts.len() && def_needs_time(
                (#[trigger] ts[r]).def,
            );
        assert(v[r]);
    }
    if exists|j: int| 0 <= j < ts.len() && v[j] && def_needs_big((#[trigger] ts[j]).def) {
        let j = choose|j: int| 0 <= j < ts.len() && v[j] && def_needs_big((#[trigger] ts[j]).def);
        assert(reach_from(ts, base).contains(j));
        assert(reach_needs_big(ts, base));
    }
    if reach_needs_big(ts, base) {
        let r = choose|r: int|
            reach_from(ts, base).contains(r) && 0 <= r < ts.len() && def_needs_big(
                (#[trigger] ts[r]).def,
            );
        assert(v[r]);
    }
}

/// A visited map of the typespace's size with nothing marked.
fn fresh_visited(module: &ModuleDef) -> (visited: Vec<bool>)
    ensures
        visited@.len() == module.typespace@.len(),
        forall|j: int| 0 <= j < visited@.len() ==> !(#[trigger] visited@[j]),
{
    let n = module.typespace.len();
    let mut visited: Vec<bool> = Vec::new();
    let mut k: usize = 0;
    while k < n
        invariant
            visited@.len() == k as int,
            k <= n,
            forall|j: int| 0 <= j < k ==> !(#[trigger] visited@[j]),
        decreases n - k,
    {
        visited.push(false);
        k = k + 1;
    }
    visited
}

/// Resolves the support-library imports required to render the type-use
/// `ty`. The walk descends through typespace references, marking visited
/// indices, so mutually recursive named types resolve without divergence.
pub fn gather_imports_type(module: &ModuleDef, ty: &AlgebraicTypeUse) -> (r: GoImports)
    requires
        module_wf(*module),
        use_refs_valid(*ty, module.typespace@.len() as int),
    ensures
        r == spec_use_imports(*module, *ty),
{
    let ghost ts = module.typespace@;
    let ghost base = direct_refs_use(*ty);
    let mut visited = fresh_visited(module);
    let ghost v0 = visited@;
    let mut stack: Vec<usize> = Vec::new();
    mark_refs_of_use(ty, &mut visited, &mut stack);
    proof {
        lemma_use_refs_valid_direct(*ty, ts.len() as int);
        assert forall|j: int|
            0 <= j < ts.len() && visited@[j] && !stack@.contains(j as usize)
            implies direct_refs_def((#[trigger] ts[j]).def).subset_of(marked_set(visited@)) by {
            assert(!v0[j]);
            assert(stack@.contains(j as usize));
        }
        assert forall|s: Set<int>| #[trigger] closed_over(ts, base, s) implies (forall|j: int|
            0 <= j < ts.len() && visited@[j] ==> s.contains(j)) by {
            assert forall|j: int| 0 <= j < ts.len() && visited@[j] implies s.contains(j) by {
                assert(base.contains(j));
                assert(base.subset_of(s));
            }
        }
    }
    drain_marks(module, &mut visited, &mut stack, Ghost(base));
    let time_reach = scan_needs_time(module, &visited);
    let big_reach = scan_needs_big(module, &visited);
    proof {
        lemma_scan_matches_reach(ts, base, visited@);
    }
    let time = use_has_time(ty) || time_reach;
    let big = use_has_big(ty) || big_reach;
    GoImports { time, big }
}

/// Resolves the imports required by a list of fields or variant payloads.
fn gather_imports_elements(module: &ModuleDef, elems: &Vec<(String, AlgebraicTypeUse)>) -> (r:
    GoImports)
    requires
        module_wf(*module),
        forall|k: int|
            0 <= k < elems@.len() ==> use_refs_valid(
                (#[trigger] elems@[k]).1,
                module.typespace@.len() as int,
            ),
    ensures
        r.time == (elements_need_time(elems@) || reach_needs_time(
            module.typespace@,
            direct_refs_elements(elems@),
        )),
        r.big == (elements_need_big(elems@) || reach_needs_big(
            module.typespace@,
            direct_refs_elements(elems@),
        )),
{
    let ghost ts = module.typespace@;
    let ghost base = direct_refs_elements(elems@);
    let mut visited = fresh_visited(module);
    let ghost v0 = visited@;
    let mut stack: Vec<usize> = Vec::new();
    mark_refs_of_elements(elems, &mut visited, &mut stack);
    proof {
        assert forall|x: int| base.contains(x) implies 0 <= x < ts.len() && visited@[x] by {
            let k = choose|k: int|
                0 <= k < elems@.len() && direct_refs_use(#[trigger] elems@[k].1).contains(x);
            lemma_use_refs_valid_direct(elems@[k].1, ts.len() as int);
        }
        assert forall|j: int|
            0 <= j < ts.len() && visited@[j] && !stack@.contains(j as usize)
            implies direct_refs_def((#[trigger] ts[j]).def).subset_of(marked_set(visited@)) by {
            assert(!v0[j]);
            assert(stack@.contains(j as usize));
        }
        assert forall|s: Set<int>| #[trigger] closed_over(ts, base, s) implies (forall|j: int|
            0 <= j < ts.len() && visited@[j] ==> s.contains(j)) by {
            assert forall|j: int| 0 <= j < ts.len() && visited@[j] implies s.contains(j) by {
                assert(base.contains(j));
                assert(base.subset_of(s));
            }
        }
    }
    drain_marks(module, &mut visited, &mut stack, Ghost(base));
    let time_reach = scan_needs_time(module, &visited);
    let big_reach = scan_needs_big(module, &visited);
    proof {
        lemma_scan_matches_reach(ts, base, visited@);
    }
    let time = elements_have_time(elems) || time_reach;
    let big = elements_have_big(elems) || big_reach;
    GoImports { time, big }
}

/// Resolves the imports required to render a product type definition.
pub fn gather_imports_product(module: &ModuleDef, product: &ProductTypeDef) -> (r: GoImports)
    requires
        module_wf(*module),
        def_refs_valid(AlgebraicTypeDef::Product(*product), module.typespace@.len() as int),
    ensures
        r == spec_def_imports(*module, AlgebraicTypeDef::Product(*product)),
{
    gather_imports_elements(module, &product.elements)
}

/// Resolves the imports required to render a sum type definition.
pub fn gather_imports_sum(module: &ModuleDef, sum: &SumTypeDef) -> (r: GoImports)
    requires
        module_wf(*module),
        def_refs_valid(AlgebraicTypeDef::Sum(*sum), module.typespace@.len() as int),
    ensures
        r == spec_def_imports(*module, AlgebraicTypeDef::Sum(*sum)),
{
    gather_imports_elements(module, &sum.variants)
}

/// The import paths for an import requirement, in ascending order.
pub open spec fn spec_import_list(g: GoImports) -> Seq<Seq<char>> {
    (if g.big {
        seq!["math/big"@]
    } else {
        Seq::<Seq<char>>::empty()
    }) + (if g.time {
        seq!["time"@]
    } else {
        Seq::<Seq<char>>::empty()
    })
}

/// The deduplicated, ascending list of import paths that `imports` names.
pub fn import_list(imports: &GoImports) -> (r: Vec<String>)
    ensures
        r@.map_values(|s: String| s@) == spec_import_list(*imports),
{
    let mut r: Vec<String> = Vec::new();
    if imports.big {
        r.push(String::from_str("math/big"));
    }
    if imports.time {
        r.push(String::from_str("time"));
    }
    proof {
        assert(r@.map_values(|s: String| s@) =~= spec_import_list(*imports));
    }
    r
}

/// Strict lexicographic order on character sequences, by code point.
pub open spec fn str_lt(a: Seq<char>, b: Seq<char>) -> bool
    decreases a.len(),
{
    if b.len() == 0 {
        false
    } else if a.len() == 0 {
        true
    } else if (a[0] as u32) < (b[0] as u32) {
        true
    } else if (a[0] as u32) > (b[0] as u32) {
        false
    } else {
        str_lt(a.drop_first(), b.drop_first())
    }
}

/// Whatever imports a rendering requires, the import list handed to the file
/// header is sorted strictly ascending and therefore free of duplicates.
pub proof fn lemma_import_list_sorted(imports: GoImports)
    ensures
        forall|i: int, j: int|
            0 <= i < j < spec_import_list(imports).len() ==> str_lt(
                #[trigger] spec_import_list(imports)[i],
                #[trigger] spec_import_list(imports)[j],
            ),
        forall|i: int, j: int|
            0 <= i < j < spec_import_list(imports).len() ==> spec_import_list(imports)[i]
                != spec_import_list(imports)[j],
{
    reveal_strlit("math/big");
    reveal_strlit("time");
    if imports.big && imports.time {
        assert(spec_import_list(imports).len() == 2);
        assert(spec_import_list(imports)[0] == "math/big"@);
        assert(spec_import_list(imports)[1] == "time"@);
        assert(("math/big"@)[0] == 'm');
        assert(("time"@)[0] == 't');
        assert(('m' as u32) < ('t' as u32));
        assert(str_lt("math/big"@, "time"@));
        assert("math/big"@ != "time"@);
    } else {
        assert(spec_import_list(imports).len() <= 1);
    }
}

} // verus!

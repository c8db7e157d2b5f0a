//! The subtype relation over extern types used to accept imports: limits
//! matching for tables and memories, exact equality for functions and
//! globals.

use vstd::prelude::*;
use crate::types::{Limits, ExternType, ExternTypeV, FuncTypeV, ValType};

verus! {

/// `a` satisfies bounds `b` iff `a.min >= b.min` and `b.max` is absent or
/// `a.max` is present and no larger than `b.max`.
pub open spec fn spec_limits_match(a: Limits, b: Limits) -> bool {
    &&& a.min >= b.min
    &&& match b.max {
        None => true,
        Some(m2) => match a.max {
            None => false,
            Some(m1) => m1 <= m2,
        },
    }
}

/// Decides whether limits `a` satisfy the import bounds `b`.
pub fn limits(a: &Limits, b: &Limits) -> (r: bool)
    ensures
        r == spec_limits_match(*a, *b),
{
    let min_ok = a.min >= b.min;
    let max_ok = match b.max {
        None => true,
        Some(m2) => match a.max {
            None => false,
            Some(m1) => m1 <= m2,
        },
    };
    min_ok && max_ok
}

/// Whether extern type `a` satisfies the declared import type `b`: exact
/// function and global type equality, limits matching (plus equal element
/// type) for tables, limits matching for memories, and never across kinds.
pub open spec fn spec_extern_type_matches(a: ExternTypeV, b: ExternTypeV) -> bool {
    match (a, b) {
        (ExternTypeV::Func(fa), ExternTypeV::Func(fb)) => fa == fb,
        (ExternTypeV::Table(ta), ExternTypeV::Table(tb)) => {
            spec_limits_match(ta.limits, tb.limits) && ta.elemtype == tb.elemtype
        },
        (ExternTypeV::Mem(ma), ExternTypeV::Mem(mb)) => spec_limits_match(ma.limits, mb.limits),
        (ExternTypeV::Global(ga), ExternTypeV::Global(gb)) => ga == gb,
        _ => false,
    }
}

/// Compares two vectors of value types.
pub fn valtypes_eq(a: &Vec<ValType>, b: &Vec<ValType>) -> (r: bool)
    ensures
        r == (a@ == b@),
{
    if a.len() != b.len() {
        return false;
    }
    let mut i: usize = 0;
    while i < a.len()
        invariant
            i <= a.len(),
            a@.len() == b@.len(),
            forall|j: int| 0 <= j < i ==> a@[j] == b@[j],
        decreases a.len() - i,
    {
        if a[i] != b[i] {
            return false;
        }
        i = i + 1;
    }
    proof {
        assert(a@ =~= b@);
    }
    true
}

/// Decides whether the live extern type `a` satisfies the declared import
/// type `b`.
pub fn extern_type(a: &ExternType, b: &ExternType) -> (r: bool)
    ensures
        r == spec_extern_type_matches(a@, b@),
{
    match (a, b) {
        (ExternType::Func(fa), ExternType::Func(fb)) => {
            let r = valtypes_eq(&fa.args, &fb.args) && valtypes_eq(&fa.results, &fb.results);
            proof {
                if fa@ == fb@ {
                    assert(fa.args@ == fb.args@ && fa.results@ == fb.results@);
                }
                if fa.args@ == fb.args@ && fa.results@ == fb.results@ {
                    assert(fa@ =~= fb@);
                }
            }
            r
        },
        (ExternType::Table(ta), ExternType::Table(tb)) => {
            limits(&ta.limits, &tb.limits) && ta.elemtype == tb.elemtype
        },
        (ExternType::Mem(ma), ExternType::Mem(mb)) => limits(&ma.limits, &mb.limits),
        (ExternType::Global(ga), ExternType::Global(gb)) => ga == gb,
        _ => false,
    }
}

/// Limits matching is reflexive: bounds always agree with themselves.
pub proof fn lemma_limits_match_reflexive(l: Limits)
    ensures
        spec_limits_match(l, l),
{
}

/// An absent upper bound never satisfies a required upper bound, whatever
/// the minima are.
pub proof fn lemma_limits_match_rejects_absent_max(n1: u32, n2: u32, k: u32)
    ensures
        !spec_limits_match(Limits { min: n1, max: None }, Limits { min: n2, max: Some(k) }),
{
}

} // verus!

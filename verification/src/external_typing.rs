//! Projecting live store entries to extern types. For tables and memories
//! the projected `min` is the current size (element count / page count), so
//! a grown instance offers a larger type than it was allocated with.

use vstd::prelude::*;
use crate::types::{ExternType, ExternTypeV, FuncTypeV, TableType, MemType, GlobalType, Limits,
    ElemType};
use crate::runtime::{Store, ExternVal, FuncAddr, TableAddr, MemAddr, GlobalAddr, WASM_PAGE_SIZE,
    WEC_MAX_SIZE};

verus! {

/// Extern type of the function instance at `a`.
pub open spec fn spec_typing_func(s: Store, a: FuncAddr) -> ExternTypeV {
    ExternTypeV::Func(s.funcs@[a as int].type_spec()@)
}

/// Extern type of the table instance at `a`: current element count as `min`.
pub open spec fn spec_typing_table(s: Store, a: TableAddr) -> ExternTypeV {
    ExternTypeV::Table(TableType {
        limits: Limits {
            min: s.tables@[a as int].elem@.len() as u32,
            max: s.tables@[a as int].max,
        },
        elemtype: ElemType::AnyFunc,
    })
}

/// Extern type of the memory instance at `a`: current page count as `min`.
pub open spec fn spec_typing_mem(s: Store, a: MemAddr) -> ExternTypeV {
    ExternTypeV::Mem(MemType {
        limits: Limits {
            min: (s.mems@[a as int].data@.len() / WASM_PAGE_SIZE as nat) as u32,
            max: s.mems@[a as int].max,
        },
    })
}

/// Extern type of the global instance at `a`: its mutability and the type of
/// its current value.
pub open spec fn spec_typing_global(s: Store, a: GlobalAddr) -> ExternTypeV {
    ExternTypeV::Global(GlobalType {
        mutability: s.globals@[a as int].mutability,
        valtype: s.globals@[a as int].value.ty_spec(),
    })
}

/// Extern type of the store entry an external value denotes.
pub open spec fn spec_external_typing(s: Store, ev: ExternVal) -> ExternTypeV {
    match ev {
        ExternVal::Func(a) => spec_typing_func(s, a),
        ExternVal::Table(a) => spec_typing_table(s, a),
        ExternVal::Mem(a) => spec_typing_mem(s, a),
        ExternVal::Global(a) => spec_typing_global(s, a),
    }
}

/// Whether an external value points into the store's pools.
pub open spec fn spec_externval_in_range(s: Store, ev: ExternVal) -> bool {
    match ev {
        ExternVal::Func(a) => a < s.funcs@.len(),
        ExternVal::Table(a) => a < s.tables@.len() && s.tables@[a as int].elem@.len()
            <= WEC_MAX_SIZE,
        ExternVal::Mem(a) => a < s.mems@.len() && s.mems@[a as int].data@.len()
            / WASM_PAGE_SIZE as nat <= WEC_MAX_SIZE as nat,
        ExternVal::Global(a) => a < s.globals@.len(),
    }
}

/// Projects the type of the function instance at `a`.
pub fn func(s: &Store, a: FuncAddr) -> (r: ExternType)
    requires
        a < s.funcs@.len(),
    ensures
        r@ == spec_typing_func(*s, a),
{
    let ft = crate::types::dup_functype(s.funcs[a].type_());
    ExternType::Func(ft)
}

/// Projects the type of the table instance at `a`.
pub fn table(s: &Store, a: TableAddr) -> (r: ExternType)
    requires
        a < s.tables@.len(),
        s.tables@[a as int].elem@.len() <= WEC_MAX_SIZE,
    ensures
        r@ == spec_typing_table(*s, a),
{
    let n = s.tables[a].elem.len();
    let m = s.tables[a].max;
    ExternType::Table(TableType {
        limits: Limits { min: n as u32, max: m },
        elemtype: ElemType::AnyFunc,
    })
}

/// Projects the type of the memory instance at `a`.
pub fn mem(s: &Store, a: MemAddr) -> (r: ExternType)
    requires
        a < s.mems@.len(),
        s.mems@[a as int].data@.len() / WASM_PAGE_SIZE as nat <= WEC_MAX_SIZE as nat,
    ensures
        r@ == spec_typing_mem(*s, a),
{
    let n = s.mems[a].data.len() / WASM_PAGE_SIZE;
    let m = s.mems[a].max;
    ExternType::Mem(MemType { limits: Limits { min: n as u32, max: m } })
}

/// Projects the type of the global instance at `a`.
pub fn global(s: &Store, a: GlobalAddr) -> (r: ExternType)
    requires
        a < s.globals@.len(),
    ensures
        r@ == spec_typing_global(*s, a),
{
    let value = s.globals[a].value;
    let mutability = s.globals[a].mutability;
    ExternType::Global(GlobalType { mutability, valtype: value.ty() })
}

/// Projects the type of the store entry an external value denotes.
pub fn external_typing(s: &Store, ev: &ExternVal) -> (r: ExternType)
    requires
        spec_externval_in_range(*s, *ev),
    ensures
        r@ == spec_external_typing(*s, *ev),
{
    match ev {
        ExternVal::Func(a) => func(s, *a),
        ExternVal::Table(a) => table(s, *a),
        ExternVal::Mem(a) => mem(s, *a),
        ExternVal::Global(a) => global(s, *a),
    }
}

} // verus!

//! Instantiation: import arity and type matching, evaluation of the
//! constant initializer expressions over the imported globals, module
//! allocation, element/data bounds checks and application, and the start
//! hook, handed back as a prepared invocation for the external interpreter.
//!
//! Constant expressions reach only imported const globals, so they are
//! evaluated here directly from the store through the imported global
//! addresses; the auxiliary module instance the execution specification
//! pushes for this step (and pops before anything else happens) would carry
//! exactly those addresses, so the store is left as if it had come and gone.

use vstd::prelude::*;
use crate::types::{Val, ValType, FuncType, FuncTypeV, ExternType, ExternTypeV, TableType, MemType,
    GlobalType};
use crate::ast::{Module, Instr, Expr, ImportDesc};
use crate::runtime::{Store, ExternVal, FuncElem, FuncAddr, TableAddr, MemAddr, GlobalAddr,
    ModuleAddr, TableInst, MemInst, WASM_PAGE_SIZE};
use crate::allocation::{alloc_module, filter_global_addrs, spec_func_addrs, spec_global_addrs,
    spec_table_addrs, spec_mem_addrs,
    spec_resolved_funcaddrs, spec_resolved_tableaddrs, spec_resolved_memaddrs,
    spec_resolved_globaladdrs, spec_export_desc_in_range, spec_export_value};
use crate::external_typing::{external_typing, spec_external_typing, spec_externval_in_range};
use crate::import_matching::{extern_type, spec_extern_type_matches};
use crate::invocation::{invoke, InvokePrep};

verus! {

/// Everything instantiation can reject once the module is validated.
#[derive(Clone, Copy, Debug, PartialEq, Eq, Structural)]
pub enum InstantiationError {
    MismatchedNumberOfProvidedImports,
    WrongExternTypeInImport,
    ElemIdxOutOfBounds,
    DataIdxOutOfBounds,
}

/// The value one constant instruction yields over the imported global
/// addresses, if it is a constant instruction at all.
pub open spec fn spec_eval_instr(s: Store, gaddrs: Seq<GlobalAddr>, i: Instr) -> Option<Val> {
    match i {
        Instr::TConst(v) => Some(v),
        Instr::GetGlobal(x) => {
            if (x as int) < gaddrs.len() && (gaddrs[x as int] as int) < s.globals@.len() {
                Some(s.globals@[gaddrs[x as int] as int].value)
            } else {
                None
            }
        },
        _ => None,
    }
}

/// The value a constant expression leaves on top of the stack: every
/// instruction must evaluate, and the last one's value is the result.
pub open spec fn spec_eval_const(s: Store, gaddrs: Seq<GlobalAddr>, body: Seq<Instr>) -> Option<
    Val,
>
    decreases body.len(),
{
    if body.len() == 0 {
        None
    } else if body.len() == 1 {
        spec_eval_instr(s, gaddrs, body[0])
    } else {
        match spec_eval_const(s, gaddrs, body.drop_last()) {
            None => None,
            Some(_) => spec_eval_instr(s, gaddrs, body.last()),
        }
    }
}

/// Evaluates a constant expression over the imported global addresses.
pub fn eval_const_expr(s: &Store, gaddrs: &Vec<GlobalAddr>, body: &Vec<Instr>) -> (r: Option<Val>)
    ensures
        r == spec_eval_const(*s, gaddrs@, body@),
{
    let mut cur: Option<Val> = None;
    let mut k: usize = 0;
    while k < body.len()
        invariant
            k <= body@.len(),
            cur == spec_eval_const(*s, gaddrs@, body@.subrange(0, k as int)),
        decreases body@.len() - k,
    {
        proof {
            assert(body@.subrange(0, k as int + 1).drop_last() =~= body@.subrange(0, k as int));
            assert(body@.subrange(0, k as int + 1).last() == body@[k as int]);
            assert(body@.subrange(0, k as int + 1)[0] == body@[0]);
        }
        let v = match &body[k] {
            Instr::TConst(v) => Some(*v),
            Instr::GetGlobal(x) => {
                if (*x as usize) < gaddrs.len() && gaddrs[*x as usize] < s.globals.len() {
                    Some(s.globals[gaddrs[*x as usize]].value)
                } else {
                    None
                }
            },
            _ => None,
        };
        cur = if k == 0 {
            v
        } else if cur.is_none() {
            None
        } else {
            v
        };
        k = k + 1;
    }
    proof {
        assert(body@.subrange(0, body@.len() as int) =~= body@);
    }
    cur
}

/// The initializer value of the module's own global `i`, fixed by the
/// module and the imported globals alone.
pub open spec fn spec_init_val(s: Store, m: Module, evs: Seq<ExternVal>, i: int) -> Val {
    match spec_eval_const(s, spec_global_addrs(evs), m.globals@[i].init.body@) {
        Some(v) => v,
        None => Val::I32(0),
    }
}

/// The extern type a module declares for import `i`.
pub open spec fn spec_declared_import_type(m: Module, i: int) -> ExternTypeV {
    match m.imports@[i].desc {
        ImportDesc::Func(x) => ExternTypeV::Func(m.types@[x as int]@),
        ImportDesc::Table(tt) => ExternTypeV::Table(tt),
        ImportDesc::Mem(mt) => ExternTypeV::Mem(mt),
        ImportDesc::Global(gt) => ExternTypeV::Global(gt),
    }
}

/// Whether external value `i` satisfies the declared type of import `i`.
pub open spec fn spec_import_ok(s: Store, m: Module, evs: Seq<ExternVal>, i: int) -> bool {
    spec_extern_type_matches(spec_external_typing(s, evs[i]), spec_declared_import_type(m, i))
}

/// Builds the extern type a module declares for import `i`.
fn declared_import_type(m: &Module, i: usize) -> (r: ExternType)
    requires
        i < m.imports@.len(),
        m.imports@[i as int].desc matches ImportDesc::Func(x) ==> (x as int) < m.types@.len(),
    ensures
        r@ == spec_declared_import_type(*m, i as int),
{
    match &m.imports[i].desc {
        ImportDesc::Func(x) => ExternType::Func(
            crate::types::dup_functype(&m.types[*x as usize]),
        ),
        ImportDesc::Table(tt) => ExternType::Table(*tt),
        ImportDesc::Mem(mt) => ExternType::Mem(*mt),
        ImportDesc::Global(gt) => ExternType::Global(*gt),
    }
}

/// Checks every provided external value against the declared import type.
fn check_imports(s: &Store, m: &Module, evs: &Vec<ExternVal>) -> (r: Result<
    (),
    InstantiationError,
>)
    requires
        evs@.len() == m.imports@.len(),
        forall|i: int| 0 <= i < evs@.len() ==> spec_externval_in_range(*s, #[trigger] evs@[i]),
        forall|i: int|
            0 <= i < m.imports@.len() ==> (#[trigger] m.imports@[i].desc matches ImportDesc::Func(
                x,
            ) ==> (x as int) < m.types@.len()),
    ensures
        r is Ok <==> forall|i: int| 0 <= i < evs@.len() ==> spec_import_ok(*s, *m, evs@, i),
        r matches Err(e) ==> e == InstantiationError::WrongExternTypeInImport,
{
    let mut i: usize = 0;
    while i < evs.len()
        invariant
            i <= evs@.len(),
            evs@.len() == m.imports@.len(),
            forall|j: int| 0 <= j < evs@.len() ==> spec_externval_in_range(*s, #[trigger] evs@[j]),
            forall|j: int|
                0 <= j < m.imports@.len() ==> (#[trigger] m.imports@[j].desc matches
                    ImportDesc::Func(x) ==> (x as int) < m.types@.len()),
            forall|j: int| 0 <= j < i ==> spec_import_ok(*s, *m, evs@, j),
        decreases evs@.len() - i,
    {
        let actual = external_typing(s, &evs[i]);
        let declared = declared_import_type(m, i);
        if !extern_type(&actual, &declared) {
            proof {
                assert(!spec_import_ok(*s, *m, evs@, i as int));
            }
            return Err(InstantiationError::WrongExternTypeInImport);
        }
        i = i + 1;
    }
    Ok(())
}

/// Copies a vector of store addresses.
fn dup_addrs(v: &Vec<usize>) -> (r: Vec<usize>)
    ensures
        r@ == v@,
{
    let mut out: Vec<usize> = Vec::new();
    let mut i: usize = 0;
    while i < v.len()
        invariant
            i <= v@.len(),
            out@ == v@.subrange(0, i as int),
        decreases v@.len() - i,
    {
        out.push(v[i]);
        i = i + 1;
    }
    proof {
        assert(out@ == v@);
    }
    out
}

/// The table address element segment `i` targets in the new instance.
pub open spec fn spec_elem_table_addr(s: Store, m: Module, evs: Seq<ExternVal>, i: int) -> int {
    spec_resolved_tableaddrs(s, m, evs)[m.elem@[i].table as int] as int
}

/// The memory address data segment `i` targets in the new instance.
pub open spec fn spec_data_mem_addr(s: Store, m: Module, evs: Seq<ExternVal>, i: int) -> int {
    spec_resolved_memaddrs(s, m, evs)[m.data@[i].data as int] as int
}

/// The evaluated offset of element segment `i`.
pub open spec fn spec_elem_offset(s: Store, m: Module, evs: Seq<ExternVal>, i: int) -> int {
    match spec_eval_const(s, spec_global_addrs(evs), m.elem@[i].offset.body@) {
        Some(Val::I32(x)) => x as int,
        _ => 0,
    }
}

/// The evaluated offset of data segment `i`.
pub open spec fn spec_data_offset(s: Store, m: Module, evs: Seq<ExternVal>, i: int) -> int {
    match spec_eval_const(s, spec_global_addrs(evs), m.data@[i].offset.body@) {
        Some(Val::I32(x)) => x as int,
        _ => 0,
    }
}

/// Element count of table `ta` right after the module's own entities were
/// allocated against store `s`: the live size for an imported table, the
/// declared minimum for an own one.
pub open spec fn spec_table_size_after_alloc(s: Store, m: Module, ta: int) -> int {
    if ta < s.tables@.len() {
        s.tables@[ta].elem@.len() as int
    } else {
        m.tables@[ta - s.tables@.len()].type_.limits.min as int
    }
}

/// Byte count of memory `ma` right after allocation.
pub open spec fn spec_mem_size_after_alloc(s: Store, m: Module, ma: int) -> int {
    if ma < s.mems@.len() {
        s.mems@[ma].data@.len() as int
    } else {
        m.mems@[ma - s.mems@.len()].type_.limits.min as int * WASM_PAGE_SIZE as int
    }
}

/// Whether element segment `i` fits its target table's size after
/// allocation.
pub open spec fn spec_elem_fits(s: Store, m: Module, evs: Seq<ExternVal>, i: int) -> bool {
    spec_elem_offset(s, m, evs, i) + m.elem@[i].init@.len() <= spec_table_size_after_alloc(
        s,
        m,
        spec_elem_table_addr(s, m, evs, i),
    )
}

/// Whether data segment `i` fits its target memory's size after allocation.
pub open spec fn spec_data_fits(s: Store, m: Module, evs: Seq<ExternVal>, i: int) -> bool {
    spec_data_offset(s, m, evs, i) + m.data@[i].init@.len() <= spec_mem_size_after_alloc(
        s,
        m,
        spec_data_mem_addr(s, m, evs, i),
    )
}

/// Whether element segment `i` writes table slot `(ta, idx)`.
pub open spec fn spec_elem_covers(
    s: Store,
    m: Module,
    evs: Seq<ExternVal>,
    i: int,
    ta: int,
    idx: int,
) -> bool {
    &&& 0 <= i < m.elem@.len()
    &&& spec_elem_table_addr(s, m, evs, i) == ta
    &&& spec_elem_offset(s, m, evs, i) <= idx < spec_elem_offset(s, m, evs, i)
        + m.elem@[i].init@.len()
}

/// Whether data segment `i` writes memory byte `(ma, idx)`.
pub open spec fn spec_data_covers(
    s: Store,
    m: Module,
    evs: Seq<ExternVal>,
    i: int,
    ma: int,
    idx: int,
) -> bool {
    &&& 0 <= i < m.data@.len()
    &&& spec_data_mem_addr(s, m, evs, i) == ma
    &&& spec_data_offset(s, m, evs, i) <= idx < spec_data_offset(s, m, evs, i)
        + m.data@[i].init@.len()
}

/// The function element segment `i` writes into slot index `idx`.
pub open spec fn spec_elem_written(
    s: Store,
    m: Module,
    evs: Seq<ExternVal>,
    i: int,
    idx: int,
) -> FuncElem {
    FuncElem(
        Some(
            spec_resolved_funcaddrs(s, m, evs)[m.elem@[i].init@[idx - spec_elem_offset(
                s,
                m,
                evs,
                i,
            )] as int],
        ),
    )
}

/// The byte data segment `i` writes into byte index `idx`.
pub open spec fn spec_data_written(
    s: Store,
    m: Module,
    evs: Seq<ExternVal>,
    i: int,
    idx: int,
) -> u8 {
    m.data@[i].init@[idx - spec_data_offset(s, m, evs, i)]
}

/// The value of table slot `(ta, idx)` right after allocation: the old
/// value of an imported table, an empty slot of an own one.
pub open spec fn spec_alloc_table_slot(s: Store, ta: int, idx: int) -> FuncElem {
    if ta < s.tables@.len() {
        s.tables@[ta].elem@[idx]
    } else {
        FuncElem(None)
    }
}

/// The value of memory byte `(ma, idx)` right after allocation.
pub open spec fn spec_alloc_mem_byte(s: Store, ma: int, idx: int) -> u8 {
    if ma < s.mems@.len() {
        s.mems@[ma].data@[idx]
    } else {
        0u8
    }
}

/// The table pool after the first `k` element segments were applied to the
/// freshly allocated pool: sizes and bounds are fixed by allocation, a slot
/// written by one of those segments holds its last write, and every other
/// slot its allocation-time value.
pub open spec fn spec_tables_state(
    s0: Store,
    m: Module,
    evs: Seq<ExternVal>,
    k: int,
    tables: Seq<TableInst>,
) -> bool {
    &&& tables.len() == s0.tables@.len() + m.tables@.len()
    &&& forall|ta: int|
        0 <= ta < tables.len() ==> (#[trigger] tables[ta].elem@).len()
            == spec_table_size_after_alloc(s0, m, ta)
    &&& forall|ta: int|
        0 <= ta < s0.tables@.len() ==> (#[trigger] tables[ta].max) == s0.tables@[ta].max
    &&& forall|ta: int|
        s0.tables@.len() <= ta < tables.len() ==> (#[trigger] tables[ta].max) == m.tables@[ta
            - s0.tables@.len()].type_.limits.max
    &&& forall|ta: int, idx: int|
        0 <= ta < tables.len() && 0 <= idx < spec_table_size_after_alloc(s0, m, ta) && (forall|
            i: int,
        |
            0 <= i < k ==> !spec_elem_covers(s0, m, evs, i, ta, idx)) ==> (
        #[trigger] tables[ta].elem@[idx]) == spec_alloc_table_slot(s0, ta, idx)
    &&& forall|i: int, idx: int|
        0 <= i < k && #[trigger] spec_elem_covers(
            s0,
            m,
            evs,
            i,
            spec_elem_table_addr(s0, m, evs, i),
            idx,
        ) && (forall|i2: int|
            i < i2 < k ==> !spec_elem_covers(
                s0,
                m,
                evs,
                i2,
                spec_elem_table_addr(s0, m, evs, i),
                idx,
            )) ==> tables[spec_elem_table_addr(s0, m, evs, i)].elem@[idx] == spec_elem_written(
            s0,
            m,
            evs,
            i,
            idx,
        )
}

/// The memory pool after the first `k` data segments were applied.
pub open spec fn spec_mems_state(
    s0: Store,
    m: Module,
    evs: Seq<ExternVal>,
    k: int,
    mems: Seq<MemInst>,
) -> bool {
    &&& mems.len() == s0.mems@.len() + m.mems@.len()
    &&& forall|ma: int|
        0 <= ma < mems.len() ==> (#[trigger] mems[ma].data@).len() == spec_mem_size_after_alloc(
            s0,
            m,
            ma,
        )
    &&& forall|ma: int|
        0 <= ma < s0.mems@.len() ==> (#[trigger] mems[ma].max) == s0.mems@[ma].max
    &&& forall|ma: int|
        s0.mems@.len() <= ma < mems.len() ==> (#[trigger] mems[ma].max) == m.mems@[ma
            - s0.mems@.len()].type_.limits.max
    &&& forall|ma: int, idx: int|
        0 <= ma < mems.len() && 0 <= idx < spec_mem_size_after_alloc(s0, m, ma) && (forall|i: int|
            0 <= i < k ==> !spec_data_covers(s0, m, evs, i, ma, idx)) ==> (
        #[trigger] mems[ma].data@[idx]) == spec_alloc_mem_byte(s0, ma, idx)
    &&& forall|i: int, idx: int|
        0 <= i < k && #[trigger] spec_data_covers(
            s0,
            m,
            evs,
            i,
            spec_data_mem_addr(s0, m, evs, i),
            idx,
        ) && (forall|i2: int|
            i < i2 < k ==> !spec_data_covers(
                s0,
                m,
                evs,
                i2,
                spec_data_mem_addr(s0, m, evs, i),
                idx,
            )) ==> mems[spec_data_mem_addr(s0, m, evs, i)].data@[idx] == spec_data_written(
            s0,
            m,
            evs,
            i,
            idx,
        )
}

/// Writes one element segment into its table: slots in the segment's range
/// take the segment's function addresses, everything else is untouched.
fn apply_elem_segment(
    tables: &mut Vec<TableInst>,
    ta: usize,
    eo: usize,
    init: &Vec<u32>,
    fas: &Vec<FuncAddr>,
) -> (u: ())
    requires
        ta < old(tables)@.len(),
        eo + init@.len() <= old(tables)@[ta as int].elem@.len(),
        forall|j: int| 0 <= j < init@.len() ==> (#[trigger] init@[j] as int) < fas@.len(),
    ensures
        final(tables)@.len() == old(tables)@.len(),
        forall|t: int|
            0 <= t < old(tables)@.len() && t != ta ==> (#[trigger] final(tables)@[t]) == old(
                tables,
            )@[t],
        final(tables)@[ta as int].max == old(tables)@[ta as int].max,
        final(tables)@[ta as int].elem@.len() == old(tables)@[ta as int].elem@.len(),
        forall|idx: int|
            eo <= idx < eo + init@.len() ==> (#[trigger] final(tables)@[ta as int].elem@[idx])
                == FuncElem(Some(fas@[init@[idx - eo] as int])),
        forall|idx: int|
            0 <= idx < old(tables)@[ta as int].elem@.len() && !(eo <= idx < eo + init@.len())
                ==> (#[trigger] final(tables)@[ta as int].elem@[idx]) == old(
                tables,
            )@[ta as int].elem@[idx],
{
    let cap = tables[ta].elem.len();
    let mut j: usize = 0;
    while j < init.len()
        invariant
            j <= init@.len(),
            ta < tables@.len(),
            tables@.len() == old(tables)@.len(),
            cap == tables@[ta as int].elem@.len(),
            eo + init@.len() <= tables@[ta as int].elem@.len(),
            forall|jj: int| 0 <= jj < init@.len() ==> (#[trigger] init@[jj] as int) < fas@.len(),
            forall|t: int|
                0 <= t < old(tables)@.len() && t != ta ==> (#[trigger] tables@[t]) == old(
                    tables,
                )@[t],
            tables@[ta as int].max == old(tables)@[ta as int].max,
            tables@[ta as int].elem@.len() == old(tables)@[ta as int].elem@.len(),
            forall|idx: int|
                eo <= idx < eo + j ==> (#[trigger] tables@[ta as int].elem@[idx]) == FuncElem(
                    Some(fas@[init@[idx - eo] as int]),
                ),
            forall|idx: int|
                0 <= idx < old(tables)@[ta as int].elem@.len() && !(eo <= idx < eo + j) ==> (
                #[trigger] tables@[ta as int].elem@[idx]) == old(tables)@[ta as int].elem@[idx],
        decreases init@.len() - j,
    {
        let fa = fas[init[j] as usize];
        tables[ta].elem[eo + j] = FuncElem(Some(fa));
        j = j + 1;
    }
}

/// Writes one data segment into its memory, byte for byte.
fn apply_data_segment(mems: &mut Vec<MemInst>, ma: usize, doff: usize, init: &Vec<u8>) -> (u: ())
    requires
        ma < old(mems)@.len(),
        doff + init@.len() <= old(mems)@[ma as int].data@.len(),
    ensures
        final(mems)@.len() == old(mems)@.len(),
        forall|t: int|
            0 <= t < old(mems)@.len() && t != ma ==> (#[trigger] final(mems)@[t]) == old(
                mems,
            )@[t],
        final(mems)@[ma as int].max == old(mems)@[ma as int].max,
        final(mems)@[ma as int].data@.len() == old(mems)@[ma as int].data@.len(),
        forall|idx: int|
            doff <= idx < doff + init@.len() ==> (#[trigger] final(mems)@[ma as int].data@[idx])
                == init@[idx - doff],
        forall|idx: int|
            0 <= idx < old(mems)@[ma as int].data@.len() && !(doff <= idx < doff + init@.len())
                ==> (#[trigger] final(mems)@[ma as int].data@[idx]) == old(
                mems,
            )@[ma as int].data@[idx],
{
    let cap = mems[ma].data.len();
    let mut j: usize = 0;
    while j < init.len()
        invariant
            j <= init@.len(),
            ma < mems@.len(),
            mems@.len() == old(mems)@.len(),
            cap == mems@[ma as int].data@.len(),
            doff + init@.len() <= mems@[ma as int].data@.len(),
            forall|t: int|
                0 <= t < old(mems)@.len() && t != ma ==> (#[trigger] mems@[t]) == old(mems)@[t],
            mems@[ma as int].max == old(mems)@[ma as int].max,
            mems@[ma as int].data@.len() == old(mems)@[ma as int].data@.len(),
            forall|idx: int|
                doff <= idx < doff + j ==> (#[trigger] mems@[ma as int].data@[idx]) == init@[idx
                    - doff],
            forall|idx: int|
                0 <= idx < old(mems)@[ma as int].data@.len() && !(doff <= idx < doff + j) ==> (
                #[trigger] mems@[ma as int].data@[idx]) == old(mems)@[ma as int].data@[idx],
        decreases init@.len() - j,
    {
        let b = init[j];
        mems[ma].data[doff + j] = b;
        j = j + 1;
    }
}

/// Every address filtered out of a row of in-range external values points
/// into the corresponding store pool.
proof fn lemma_filtered_addrs_in_range(s0: Store, evs: Seq<ExternVal>)
    requires
        forall|i: int| 0 <= i < evs.len() ==> spec_externval_in_range(s0, #[trigger] evs[i]),
    ensures
        forall|k: int|
            0 <= k < spec_func_addrs(evs).len() ==> (#[trigger] spec_func_addrs(evs)[k] as int)
                < s0.funcs@.len(),
        forall|k: int|
            0 <= k < spec_table_addrs(evs).len() ==> (#[trigger] spec_table_addrs(evs)[k] as int)
                < s0.tables@.len(),
        forall|k: int|
            0 <= k < spec_mem_addrs(evs).len() ==> (#[trigger] spec_mem_addrs(evs)[k] as int)
                < s0.mems@.len(),
        forall|k: int|
            0 <= k < spec_global_addrs(evs).len() ==> (#[trigger] spec_global_addrs(evs)[k] as int)
                < s0.globals@.len(),
    decreases evs.len(),
{
    if evs.len() > 0 {
        lemma_filtered_addrs_in_range(s0, evs.drop_last());
        assert(spec_externval_in_range(s0, evs[evs.len() - 1]));
        assert(evs.last() == evs[evs.len() - 1]);
        let fa = spec_func_addrs(evs);
        let fa0 = spec_func_addrs(evs.drop_last());
        assert forall|k: int| 0 <= k < fa.len() implies (#[trigger] fa[k] as int)
            < s0.funcs@.len() by {
            if k < fa0.len() {
                assert(fa[k] == fa0[k]);
            }
        }
        let ta = spec_table_addrs(evs);
        let ta0 = spec_table_addrs(evs.drop_last());
        assert forall|k: int| 0 <= k < ta.len() implies (#[trigger] ta[k] as int)
            < s0.tables@.len() by {
            if k < ta0.len() {
                assert(ta[k] == ta0[k]);
            }
        }
        let ma = spec_mem_addrs(evs);
        let ma0 = spec_mem_addrs(evs.drop_last());
        assert forall|k: int| 0 <= k < ma.len() implies (#[trigger] ma[k] as int)
            < s0.mems@.len() by {
            if k < ma0.len() {
                assert(ma[k] == ma0[k]);
            }
        }
        let ga = spec_global_addrs(evs);
        let ga0 = spec_global_addrs(evs.drop_last());
        assert forall|k: int| 0 <= k < ga.len() implies (#[trigger] ga[k] as int)
            < s0.globals@.len() by {
            if k < ga0.len() {
                assert(ga[k] == ga0[k]);
            }
        }
    }
}

/// The function, global and module pools and the new instance exactly as
/// `alloc_module` leaves them, with the initializer values fixed by the
/// constant-expression evaluation over the imported globals.
pub open spec fn spec_pools_allocated(
    s0: Store,
    m: Module,
    evs: Seq<ExternVal>,
    s1: Store,
) -> bool {
    &&& s1.modules@.len() == s0.modules@.len() + 1
    &&& s1.modules@.drop_last() == s0.modules@
    &&& s1.funcs@.len() == s0.funcs@.len() + m.funcs@.len()
    &&& s1.funcs@.subrange(0, s0.funcs@.len() as int) == s0.funcs@
    &&& forall|k: int|
        0 <= k < m.funcs@.len() ==> (#[trigger] s1.funcs@[s0.funcs@.len() + k] matches
            crate::runtime::FuncInst::Internal { type_, module: ma, code } && {
            &&& type_@ == m.types@[m.funcs@[k].type_ as int]@
            &&& ma == s0.modules@.len()
            &&& crate::ast::func_equiv(m.funcs@[k], code)
        })
    &&& s1.globals@ == s0.globals@ + Seq::new(
        m.globals@.len(),
        |k: int| crate::runtime::GlobalInst {
            value: spec_init_val(s0, m, evs, k),
            mutability: m.globals@[k].type_.mutability,
        },
    )
    &&& s1.modules@.last().funcaddrs@ == spec_resolved_funcaddrs(s0, m, evs)
    &&& s1.modules@.last().tableaddrs@ == spec_resolved_tableaddrs(s0, m, evs)
    &&& s1.modules@.last().memaddrs@ == spec_resolved_memaddrs(s0, m, evs)
    &&& s1.modules@.last().globaladdrs@ == spec_resolved_globaladdrs(s0, m, evs)
    &&& s1.modules@.last().types@.len() == m.types@.len()
    &&& forall|i: int|
        0 <= i < m.types@.len() ==> (#[trigger] s1.modules@.last().types@[i]@) == m.types@[i]@
    &&& s1.modules@.last().exports@.len() == m.exports@.len()
    &&& forall|i: int|
        0 <= i < m.exports@.len() ==> {
            &&& (#[trigger] s1.modules@.last().exports@[i]).name@ == m.exports@[i].name@
            &&& s1.modules@.last().exports@[i].value == spec_export_value(
                spec_resolved_funcaddrs(s0, m, evs),
                spec_resolved_tableaddrs(s0, m, evs),
                spec_resolved_memaddrs(s0, m, evs),
                spec_resolved_globaladdrs(s0, m, evs),
                m.exports@[i].desc,
            )
        }
}

/// The declared type of the instance's function `k`: read off the store for
/// an imported function, off the module's type table for an own one.
pub open spec fn spec_instance_functype(
    s: Store,
    m: Module,
    evs: Seq<ExternVal>,
    k: int,
) -> FuncTypeV {
    if k < spec_func_addrs(evs).len() {
        s.funcs@[spec_func_addrs(evs)[k] as int].type_spec()@
    } else {
        m.types@[m.funcs@[k - spec_func_addrs(evs).len()].type_ as int]@
    }
}

/// Applies every element segment to the freshly allocated table pool.
#[verifier::rlimit(100)]
#[verifier::spinoff_prover]
fn apply_all_elems(
    s: &mut Store,
    module: &Module,
    eoffs: &Vec<u32>,
    tas_mod: &Vec<TableAddr>,
    fas: &Vec<FuncAddr>,
    Ghost(s0): Ghost<Store>,
    Ghost(evs): Ghost<Seq<ExternVal>>,
) -> (u: ())
    requires
        spec_tables_state(s0, *module, evs, 0, old(s).tables@),
        tas_mod@ == spec_resolved_tableaddrs(s0, *module, evs),
        fas@ == spec_resolved_funcaddrs(s0, *module, evs),
        eoffs@.len() == module.elem@.len(),
        forall|i: int|
            0 <= i < module.elem@.len() ==> (#[trigger] eoffs@[i] as int) == spec_elem_offset(
                s0,
                *module,
                evs,
                i,
            ),
        forall|i: int|
            0 <= i < module.elem@.len() ==> spec_elem_fits(s0, *module, evs, i),
        forall|i: int|
            0 <= i < module.elem@.len() ==> (#[trigger] module.elem@[i].table as int)
                < spec_resolved_tableaddrs(s0, *module, evs).len(),
        forall|i: int, j: int|
            0 <= i < module.elem@.len() && 0 <= j < module.elem@[i].init@.len() ==> (
            #[trigger] module.elem@[i].init@[j] as int) < spec_resolved_funcaddrs(
                s0,
                *module,
                evs,
            ).len(),
        forall|i: int|
            0 <= i < module.elem@.len() ==> 0 <= #[trigger] spec_elem_table_addr(s0, *module, evs, i)
                < s0.tables@.len() + module.tables@.len(),
    ensures
        spec_tables_state(s0, *module, evs, module.elem@.len() as int, final(s).tables@),
        final(s).funcs@ == old(s).funcs@,
        final(s).mems@ == old(s).mems@,
        final(s).globals@ == old(s).globals@,
        final(s).modules@ == old(s).modules@,
{
    let mut i: usize = 0;
    while i < module.elem.len()
        invariant
            i <= module.elem@.len(),
            spec_tables_state(s0, *module, evs, i as int, s.tables@),
            tas_mod@ == spec_resolved_tableaddrs(s0, *module, evs),
            fas@ == spec_resolved_funcaddrs(s0, *module, evs),
            eoffs@.len() == module.elem@.len(),
            forall|ii: int|
                0 <= ii < module.elem@.len() ==> (#[trigger] eoffs@[ii] as int) == spec_elem_offset(
                    s0,
                    *module,
                    evs,
                    ii,
                ),
            forall|ii: int|
                0 <= ii < module.elem@.len() ==> spec_elem_fits(s0, *module, evs, ii),
            forall|ii: int|
                0 <= ii < module.elem@.len() ==> (#[trigger] module.elem@[ii].table as int)
                    < spec_resolved_tableaddrs(s0, *module, evs).len(),
            forall|ii: int, j: int|
                0 <= ii < module.elem@.len() && 0 <= j < module.elem@[ii].init@.len() ==> (
                #[trigger] module.elem@[ii].init@[j] as int) < spec_resolved_funcaddrs(
                    s0,
                    *module,
                    evs,
                ).len(),
            forall|ii: int|
                0 <= ii < module.elem@.len() ==> 0 <= #[trigger] spec_elem_table_addr(s0, *module, evs, ii)
                    < s0.tables@.len() + module.tables@.len(),
            s.funcs@ == old(s).funcs@,
            s.mems@ == old(s).mems@,
            s.globals@ == old(s).globals@,
            s.modules@ == old(s).modules@,
        decreases module.elem@.len() - i,
    {
        let ghost pre_tables = s.tables@;
        let ti = module.elem[i].table as usize;
        let ta = tas_mod[ti];
        let eo = eoffs[i] as usize;
        proof {
            assert(spec_elem_table_addr(s0, *module, evs, i as int) == ta as int);
            assert(s.tables@[ta as int].elem@.len() == spec_table_size_after_alloc(
                s0,
                *module,
                ta as int,
            ));
            assert(spec_elem_fits(s0, *module, evs, i as int));
        }
        apply_elem_segment(&mut s.tables, ta, eo, &module.elem[i].init, fas);
        proof {
            let mi = *module;
            let k = i as int;
            let taddr = ta as int;
            let off = eo as int;
            let ilen = mi.elem@[k].init@.len() as int;
            assert(spec_elem_table_addr(s0, mi, evs, k) == taddr);
            assert(off == spec_elem_offset(s0, mi, evs, k));
            assert(0 <= k < mi.elem@.len());
            assert forall|ta2: int, idx: int|
                0 <= ta2 < s.tables@.len() && 0 <= idx < spec_table_size_after_alloc(
                    s0,
                    mi,
                    ta2,
                ) && (forall|ii: int| 0 <= ii < k + 1 ==> !spec_elem_covers(s0, mi, evs, ii, ta2, idx))
                implies (#[trigger] s.tables@[ta2].elem@[idx]) == spec_alloc_table_slot(
                s0,
                ta2,
                idx,
            ) by {
                assert(!spec_elem_covers(s0, mi, evs, k, ta2, idx));
                if ta2 == taddr {
                    assert(!(off <= idx < off + ilen));
                    assert(s.tables@[ta2].elem@[idx] == pre_tables[ta2].elem@[idx]);
                } else {
                    assert(s.tables@[ta2] == pre_tables[ta2]);
                }
                assert(forall|ii: int| 0 <= ii < k ==> !spec_elem_covers(s0, mi, evs, ii, ta2, idx));
            }
            assert forall|ii: int, idx: int|
                0 <= ii < k + 1 && #[trigger] spec_elem_covers(
                    s0,
                    mi,
                    evs,
                    ii,
                    spec_elem_table_addr(s0, mi, evs, ii),
                    idx,
                ) && (forall|i2: int|
                    ii < i2 < k + 1 ==> !spec_elem_covers(
                        s0,
                        mi,
                        evs,
                        i2,
                        spec_elem_table_addr(s0, mi, evs, ii),
                        idx,
                    ))
                implies s.tables@[spec_elem_table_addr(s0, mi, evs, ii)].elem@[idx]
                    == spec_elem_written(s0, mi, evs, ii, idx) by {
                let t2 = spec_elem_table_addr(s0, mi, evs, ii);
                if ii == k {
                    assert(t2 == taddr);
                    assert(off <= idx < off + ilen);
                    assert(s.tables@[taddr].elem@[idx] == FuncElem(
                        Some(fas@[mi.elem@[k].init@[idx - off] as int]),
                    ));
                } else {
                    assert(!spec_elem_covers(s0, mi, evs, k, t2, idx));
                    assert(spec_elem_fits(s0, mi, evs, ii));
                    assert(0 <= idx < spec_table_size_after_alloc(s0, mi, t2));
                    assert(pre_tables[t2].elem@.len() == spec_table_size_after_alloc(s0, mi, t2));
                    if t2 == taddr {
                        assert(spec_elem_covers(s0, mi, evs, k, t2, idx) <==> (off <= idx < off
                            + ilen));
                        assert(!(off <= idx < off + ilen));
                        assert(s.tables@[t2].elem@[idx] == pre_tables[t2].elem@[idx]);
                    } else {
                        assert(s.tables@[t2] == pre_tables[t2]);
                    }
                    assert(forall|i2: int|
                        ii < i2 < k ==> !spec_elem_covers(s0, mi, evs, i2, t2, idx));
                    assert(pre_tables[t2].elem@[idx] == spec_elem_written(s0, mi, evs, ii, idx));
                }
            }
            assert(spec_tables_state(s0, mi, evs, k + 1, s.tables@));
        }
        i = i + 1;
    }
}

/// Applies every data segment to the freshly allocated memory pool.
#[verifier::rlimit(100)]
#[verifier::spinoff_prover]
fn apply_all_datas(
    s: &mut Store,
    module: &Module,
    doffs: &Vec<u32>,
    mas_mod: &Vec<MemAddr>,
    Ghost(s0): Ghost<Store>,
    Ghost(evs): Ghost<Seq<ExternVal>>,
) -> (u: ())
    requires
        spec_mems_state(s0, *module, evs, 0, old(s).mems@),
        mas_mod@ == spec_resolved_memaddrs(s0, *module, evs),
        doffs@.len() == module.data@.len(),
        forall|i: int|
            0 <= i < module.data@.len() ==> (#[trigger] doffs@[i] as int) == spec_data_offset(
                s0,
                *module,
                evs,
                i,
            ),
        forall|i: int|
            0 <= i < module.data@.len() ==> spec_data_fits(s0, *module, evs, i),
        forall|i: int|
            0 <= i < module.data@.len() ==> (#[trigger] module.data@[i].data as int)
                < spec_resolved_memaddrs(s0, *module, evs).len(),
        forall|i: int|
            0 <= i < module.data@.len() ==> 0 <= #[trigger] spec_data_mem_addr(s0, *module, evs, i)
                < s0.mems@.len() + module.mems@.len(),
    ensures
        spec_mems_state(s0, *module, evs, module.data@.len() as int, final(s).mems@),
        final(s).funcs@ == old(s).funcs@,
        final(s).tables@ == old(s).tables@,
        final(s).globals@ == old(s).globals@,
        final(s).modules@ == old(s).modules@,
{
    let mut i: usize = 0;
    while i < module.data.len()
        invariant
            i <= module.data@.len(),
            spec_mems_state(s0, *module, evs, i as int, s.mems@),
            mas_mod@ == spec_resolved_memaddrs(s0, *module, evs),
            doffs@.len() == module.data@.len(),
            forall|ii: int|
                0 <= ii < module.data@.len() ==> (#[trigger] doffs@[ii] as int) == spec_data_offset(
                    s0,
                    *module,
                    evs,
                    ii,
                ),
            forall|ii: int|
                0 <= ii < module.data@.len() ==> spec_data_fits(s0, *module, evs, ii),
            forall|ii: int|
                0 <= ii < module.data@.len() ==> (#[trigger] module.data@[ii].data as int)
                    < spec_resolved_memaddrs(s0, *module, evs).len(),
            forall|ii: int|
                0 <= ii < module.data@.len() ==> 0 <= #[trigger] spec_data_mem_addr(s0, *module, evs, ii)
                    < s0.mems@.len() + module.mems@.len(),
            s.funcs@ == old(s).funcs@,
            s.tables@ == old(s).tables@,
            s.globals@ == old(s).globals@,
            s.modules@ == old(s).modules@,
        decreases module.data@.len() - i,
    {
        let ghost pre_mems = s.mems@;
        let di = module.data[i].data as usize;
        let ma = mas_mod[di];
        let doff = doffs[i] as usize;
        proof {
            assert(spec_data_mem_addr(s0, *module, evs, i as int) == ma as int);
            assert(s.mems@[ma as int].data@.len() == spec_mem_size_after_alloc(
                s0,
                *module,
                ma as int,
            ));
            assert(spec_data_fits(s0, *module, evs, i as int));
        }
        apply_data_segment(&mut s.mems, ma, doff, &module.data[i].init);
        proof {
            let mi = *module;
            let k = i as int;
            let maddr = ma as int;
            let off = doff as int;
            let ilen = mi.data@[k].init@.len() as int;
            assert(spec_data_mem_addr(s0, mi, evs, k) == maddr);
            assert(off == spec_data_offset(s0, mi, evs, k));
            assert(0 <= k < mi.data@.len());
            assert forall|ma2: int, idx: int|
                0 <= ma2 < s.mems@.len() && 0 <= idx < spec_mem_size_after_alloc(s0, mi, ma2) && (
                forall|ii: int| 0 <= ii < k + 1 ==> !spec_data_covers(s0, mi, evs, ii, ma2, idx))
                implies (#[trigger] s.mems@[ma2].data@[idx]) == spec_alloc_mem_byte(
                s0,
                ma2,
                idx,
            ) by {
                assert(!spec_data_covers(s0, mi, evs, k, ma2, idx));
                if ma2 == maddr {
                    assert(!(off <= idx < off + ilen));
                    assert(s.mems@[ma2].data@[idx] == pre_mems[ma2].data@[idx]);
                } else {
                    assert(s.mems@[ma2] == pre_mems[ma2]);
                }
                assert(forall|ii: int| 0 <= ii < k ==> !spec_data_covers(s0, mi, evs, ii, ma2, idx));
            }
            assert forall|ii: int, idx: int|
                0 <= ii < k + 1 && #[trigger] spec_data_covers(
                    s0,
                    mi,
                    evs,
                    ii,
                    spec_data_mem_addr(s0, mi, evs, ii),
                    idx,
                ) && (forall|i2: int|
                    ii < i2 < k + 1 ==> !spec_data_covers(
                        s0,
                        mi,
                        evs,
                        i2,
                        spec_data_mem_addr(s0, mi, evs, ii),
                        idx,
                    ))
                implies s.mems@[spec_data_mem_addr(s0, mi, evs, ii)].data@[idx]
                    == spec_data_written(s0, mi, evs, ii, idx) by {
                let m2 = spec_data_mem_addr(s0, mi, evs, ii);
                if ii == k {
                    assert(m2 == maddr);
                    assert(off <= idx < off + ilen);
                    assert(s.mems@[maddr].data@[idx] == mi.data@[k].init@[idx - off]);
                } else {
                    assert(!spec_data_covers(s0, mi, evs, k, m2, idx));
                    assert(spec_data_fits(s0, mi, evs, ii));
                    assert(0 <= idx < spec_mem_size_after_alloc(s0, mi, m2));
                    assert(pre_mems[m2].data@.len() == spec_mem_size_after_alloc(s0, mi, m2));
                    if m2 == maddr {
                        assert(spec_data_covers(s0, mi, evs, k, m2, idx) <==> (off <= idx < off
                            + ilen));
                        assert(!(off <= idx < off + ilen));
                        assert(s.mems@[m2].data@[idx] == pre_mems[m2].data@[idx]);
                    } else {
                        assert(s.mems@[m2] == pre_mems[m2]);
                    }
                    assert(forall|i2: int|
                        ii < i2 < k ==> !spec_data_covers(s0, mi, evs, i2, m2, idx));
                    assert(pre_mems[m2].data@[idx] == spec_data_written(s0, mi, evs, ii, idx));
                }
            }
            assert(spec_mems_state(s0, mi, evs, k + 1, s.mems@));
        }
        i = i + 1;
    }
}

/// Evaluates every own global's initializer over the imported globals.
fn compute_init_vals(s: &Store, module: &Module, gaddrs: &Vec<GlobalAddr>) -> (r: Vec<Val>)
    requires
        forall|i: int|
            0 <= i < module.globals@.len() ==> #[trigger] spec_eval_const(
                *s,
                gaddrs@,
                module.globals@[i].init.body@,
            ) is Some,
    ensures
        r@.len() == module.globals@.len(),
        forall|i: int|
            0 <= i < module.globals@.len() ==> Some(#[trigger] r@[i]) == spec_eval_const(
                *s,
                gaddrs@,
                module.globals@[i].init.body@,
            ),
{
    let mut out: Vec<Val> = Vec::new();
    let mut i: usize = 0;
    while i < module.globals.len()
        invariant
            i <= module.globals@.len(),
            forall|j: int|
                0 <= j < module.globals@.len() ==> #[trigger] spec_eval_const(
                    *s,
                    gaddrs@,
                    module.globals@[j].init.body@,
                ) is Some,
            out@.len() == i,
            forall|j: int|
                0 <= j < i ==> Some(#[trigger] out@[j]) == spec_eval_const(
                    *s,
                    gaddrs@,
                    module.globals@[j].init.body@,
                ),
        decreases module.globals@.len() - i,
    {
        match eval_const_expr(s, gaddrs, &module.globals[i].init.body) {
            Some(v) => {
                out.push(v);
            },
            None => {
                proof {
                    assert(false);
                }
            },
        }
        i = i + 1;
    }
    out
}

/// Evaluates every element segment's offset over the imported globals.
fn compute_elem_offsets(s: &Store, module: &Module, gaddrs: &Vec<GlobalAddr>) -> (r: Vec<u32>)
    requires
        forall|i: int|
            0 <= i < module.elem@.len() ==> (#[trigger] spec_eval_const(
                *s,
                gaddrs@,
                module.elem@[i].offset.body@,
            ) matches Some(v) && v is I32),
    ensures
        r@.len() == module.elem@.len(),
        forall|i: int|
            0 <= i < module.elem@.len() ==> Some(Val::I32(#[trigger] r@[i])) == spec_eval_const(
                *s,
                gaddrs@,
                module.elem@[i].offset.body@,
            ),
{
    let mut out: Vec<u32> = Vec::new();
    let mut i: usize = 0;
    while i < module.elem.len()
        invariant
            i <= module.elem@.len(),
            forall|j: int|
                0 <= j < module.elem@.len() ==> (#[trigger] spec_eval_const(
                    *s,
                    gaddrs@,
                    module.elem@[j].offset.body@,
                ) matches Some(v) && v is I32),
            out@.len() == i,
            forall|j: int|
                0 <= j < i ==> Some(Val::I32(#[trigger] out@[j])) == spec_eval_const(
                    *s,
                    gaddrs@,
                    module.elem@[j].offset.body@,
                ),
        decreases module.elem@.len() - i,
    {
        match eval_const_expr(s, gaddrs, &module.elem[i].offset.body) {
            Some(Val::I32(x)) => {
                out.push(x);
            },
            _ => {
                proof {
                    assert(false);
                }
            },
        }
        i = i + 1;
    }
    out
}

/// Evaluates every data segment's offset over the imported globals.
fn compute_data_offsets(s: &Store, module: &Module, gaddrs: &Vec<GlobalAddr>) -> (r: Vec<u32>)
    requires
        forall|i: int|
            0 <= i < module.data@.len() ==> (#[trigger] spec_eval_const(
                *s,
                gaddrs@,
                module.data@[i].offset.body@,
            ) matches Some(v) && v is I32),
    ensures
        r@.len() == module.data@.len(),
        forall|i: int|
            0 <= i < module.data@.len() ==> Some(Val::I32(#[trigger] r@[i])) == spec_eval_const(
                *s,
                gaddrs@,
                module.data@[i].offset.body@,
            ),
{
    let mut out: Vec<u32> = Vec::new();
    let mut i: usize = 0;
    while i < module.data.len()
        invariant
            i <= module.data@.len(),
            forall|j: int|
                0 <= j < module.data@.len() ==> (#[trigger] spec_eval_const(
                    *s,
                    gaddrs@,
                    module.data@[j].offset.body@,
                ) matches Some(v) && v is I32),
            out@.len() == i,
            forall|j: int|
                0 <= j < i ==> Some(Val::I32(#[trigger] out@[j])) == spec_eval_const(
                    *s,
                    gaddrs@,
                    module.data@[j].offset.body@,
                ),
        decreases module.data@.len() - i,
    {
        match eval_const_expr(s, gaddrs, &module.data[i].offset.body) {
            Some(Val::I32(x)) => {
                out.push(x);
            },
            _ => {
                proof {
                    assert(false);
                }
            },
        }
        i = i + 1;
    }
    out
}

/// Instantiates a validated module against the provided imports: arity and
/// import-type checks, evaluation of the global initializers over the
/// imported globals, module allocation, element and data bounds checks
/// (failing after allocation leaves the documented residue, with no table
/// slot or memory byte written), segment application, and the start
/// function handed back as a prepared invocation for the interpreter.
#[verifier::rlimit(100)]
#[verifier::spinoff_prover]
pub fn instantiate_module(s: &mut Store, module: &Module, externvals: &Vec<ExternVal>) -> (r:
    Result<(ModuleAddr, Option<InvokePrep>), InstantiationError>)
    requires
        forall|i: int|
            0 <= i < module.funcs@.len() ==> (#[trigger] module.funcs@[i].type_ as int)
                < module.types@.len(),
        forall|i: int|
            0 <= i < module.mems@.len() ==> (#[trigger] module.mems@[i].type_.limits.min as int)
                * WASM_PAGE_SIZE as int <= usize::MAX as int,
        forall|i: int|
            0 <= i < module.exports@.len() ==> spec_export_desc_in_range(
                (#[trigger] module.exports@[i]).desc,
                spec_resolved_funcaddrs(*old(s), *module, externvals@).len() as int,
                spec_resolved_tableaddrs(*old(s), *module, externvals@).len() as int,
                spec_resolved_memaddrs(*old(s), *module, externvals@).len() as int,
                spec_resolved_globaladdrs(*old(s), *module, externvals@).len() as int,
            ),
        forall|i: int|
            0 <= i < module.imports@.len() ==> ((#[trigger] module.imports@[i]).desc matches
                ImportDesc::Func(x) ==> (x as int) < module.types@.len()),
        forall|i: int|
            0 <= i < externvals@.len() ==> spec_externval_in_range(
                *old(s),
                #[trigger] externvals@[i],
            ),
        forall|i: int|
            0 <= i < module.globals@.len() ==> (#[trigger] spec_eval_const(
                *old(s),
                spec_global_addrs(externvals@),
                module.globals@[i].init.body@,
            ) matches Some(v) && v.ty_spec() == module.globals@[i].type_.valtype),
        forall|i: int|
            0 <= i < module.elem@.len() ==> {
                &&& (#[trigger] module.elem@[i].table as int) < spec_resolved_tableaddrs(
                    *old(s),
                    *module,
                    externvals@,
                ).len()
                &&& (spec_eval_const(
                    *old(s),
                    spec_global_addrs(externvals@),
                    module.elem@[i].offset.body@,
                ) matches Some(v) && v is I32)
                &&& forall|j: int|
                    0 <= j < module.elem@[i].init@.len() ==> (
                    #[trigger] module.elem@[i].init@[j] as int) < spec_resolved_funcaddrs(
                        *old(s),
                        *module,
                        externvals@,
                    ).len()
            },
        forall|i: int|
            0 <= i < module.data@.len() ==> {
                &&& (#[trigger] module.data@[i].data as int) < spec_resolved_memaddrs(
                    *old(s),
                    *module,
                    externvals@,
                ).len()
                &&& (spec_eval_const(
                    *old(s),
                    spec_global_addrs(externvals@),
                    module.data@[i].offset.body@,
                ) matches Some(v) && v is I32)
            },
        module.start matches Some(st) ==> (st.func as int) < spec_resolved_funcaddrs(
            *old(s),
            *module,
            externvals@,
        ).len() && spec_instance_functype(*old(s), *module, externvals@, st.func as int).args.len()
            == 0,
    ensures
        (r matches Err(e) && e == InstantiationError::MismatchedNumberOfProvidedImports)
            <==> externvals@.len() != module.imports@.len(),
        (r matches Err(e) && e == InstantiationError::WrongExternTypeInImport) <==> (
        externvals@.len() == module.imports@.len() && !(forall|i: int|
            0 <= i < externvals@.len() ==> spec_import_ok(*old(s), *module, externvals@, i))),
        (r matches Err(e) && e == InstantiationError::ElemIdxOutOfBounds) <==> (externvals@.len()
            == module.imports@.len() && (forall|i: int|
            0 <= i < externvals@.len() ==> spec_import_ok(*old(s), *module, externvals@, i)) && !(
        forall|i: int|
            0 <= i < module.elem@.len() ==> spec_elem_fits(*old(s), *module, externvals@, i))),
        (r matches Err(e) && e == InstantiationError::DataIdxOutOfBounds) <==> (externvals@.len()
            == module.imports@.len() && (forall|i: int|
            0 <= i < externvals@.len() ==> spec_import_ok(*old(s), *module, externvals@, i)) && (
        forall|i: int|
            0 <= i < module.elem@.len() ==> spec_elem_fits(*old(s), *module, externvals@, i)) && !(
        forall|i: int|
            0 <= i < module.data@.len() ==> spec_data_fits(*old(s), *module, externvals@, i))),
        r is Ok <==> (externvals@.len() == module.imports@.len() && (forall|i: int|
            0 <= i < externvals@.len() ==> spec_import_ok(*old(s), *module, externvals@, i)) && (
        forall|i: int|
            0 <= i < module.elem@.len() ==> spec_elem_fits(*old(s), *module, externvals@, i)) && (
        forall|i: int|
            0 <= i < module.data@.len() ==> spec_data_fits(*old(s), *module, externvals@, i))),
        (r matches Err(e) && (e == InstantiationError::MismatchedNumberOfProvidedImports || e
            == InstantiationError::WrongExternTypeInImport)) ==> {
            &&& final(s).funcs@ == old(s).funcs@
            &&& final(s).tables@ == old(s).tables@
            &&& final(s).mems@ == old(s).mems@
            &&& final(s).globals@ == old(s).globals@
            &&& final(s).modules@ == old(s).modules@
        },
        (r matches Err(e) && (e == InstantiationError::ElemIdxOutOfBounds || e
            == InstantiationError::DataIdxOutOfBounds)) ==> {
            &&& spec_pools_allocated(*old(s), *module, externvals@, *final(s))
            &&& spec_tables_state(*old(s), *module, externvals@, 0, final(s).tables@)
            &&& spec_mems_state(*old(s), *module, externvals@, 0, final(s).mems@)
        },
        r matches Ok(p) ==> {
            &&& p.0 == old(s).modules@.len()
            &&& spec_pools_allocated(*old(s), *module, externvals@, *final(s))
            &&& spec_tables_state(
                *old(s),
                *module,
                externvals@,
                module.elem@.len() as int,
                final(s).tables@,
            )
            &&& spec_mems_state(
                *old(s),
                *module,
                externvals@,
                module.data@.len() as int,
                final(s).mems@,
            )
            &&& match module.start {
                None => p.1 is None,
                Some(st) => p.1 matches Some(prep) && {
                    &&& prep.funcaddr == spec_resolved_funcaddrs(
                        *old(s),
                        *module,
                        externvals@,
                    )[st.func as int]
                    &&& prep.stack@.len() == 0
                    &&& prep.result_arity == spec_instance_functype(
                        *old(s),
                        *module,
                        externvals@,
                        st.func as int,
                    ).results.len()
                },
            }
        },
{
    let ghost s0 = *old(s);
    let ghost mi = *module;
    let ghost evs = externvals@;

    if externvals.len() != module.imports.len() {
        return Err(InstantiationError::MismatchedNumberOfProvidedImports);
    }
    match check_imports(s, module, externvals) {
        Err(e) => {
            return Err(e);
        },
        Ok(_) => {},
    }

    let gaddrs = filter_global_addrs(externvals);
    proof {
        lemma_filtered_addrs_in_range(s0, evs);
    }
    let vals = compute_init_vals(s, module, &gaddrs);
    proof {
        assert forall|i: int| 0 <= i < vals@.len() implies (#[trigger] vals@[i]).ty_spec()
            == module.globals@[i].type_.valtype && vals@[i] == spec_init_val(s0, mi, evs, i) by {
            assert(Some(vals@[i]) == spec_eval_const(s0, gaddrs@, module.globals@[i].init.body@));
        }
    }
    proof {
        assert forall|i: int| 0 <= i < mi.elem@.len() implies (#[trigger] spec_eval_const(
            s0,
            gaddrs@,
            mi.elem@[i].offset.body@,
        ) matches Some(v) && v is I32) by {
            assert(0 <= mi.elem@[i].table as int);
        }
        assert forall|i: int| 0 <= i < mi.data@.len() implies (#[trigger] spec_eval_const(
            s0,
            gaddrs@,
            mi.data@[i].offset.body@,
        ) matches Some(v) && v is I32) by {
            assert(0 <= mi.data@[i].data as int);
        }
    }
    let eoffs = compute_elem_offsets(s, module, &gaddrs);
    let doffs = compute_data_offsets(s, module, &gaddrs);

    let a = alloc_module(s, module, externvals, &vals);
    proof {
        assert(s.globals@ =~= s0.globals@ + Seq::new(
            mi.globals@.len(),
            |k: int| crate::runtime::GlobalInst {
                value: spec_init_val(s0, mi, evs, k),
                mutability: mi.globals@[k].type_.mutability,
            },
        ));
        assert(spec_pools_allocated(s0, mi, evs, *s));
        assert forall|ta: int| 0 <= ta < s.tables@.len() implies {
            &&& (#[trigger] s.tables@[ta].elem@).len() == spec_table_size_after_alloc(s0, mi, ta)
            &&& (ta < s0.tables@.len() ==> s.tables@[ta] == s0.tables@[ta])
            &&& (s0.tables@.len() <= ta ==> s.tables@[ta].max == mi.tables@[ta
                - s0.tables@.len()].type_.limits.max)
        } by {
            if ta < s0.tables@.len() {
                assert(s.tables@.subrange(0, s0.tables@.len() as int)[ta] == s0.tables@[ta]);
            } else {
                let k = ta - s0.tables@.len();
                assert(s.tables@[s0.tables@.len() + k].elem@ == Seq::new(
                    mi.tables@[k].type_.limits.min as nat,
                    |j: int| FuncElem(None),
                ));
            }
        }
        assert forall|ta: int, idx: int|
            0 <= ta < s.tables@.len() && 0 <= idx < spec_table_size_after_alloc(s0, mi, ta)
            implies (#[trigger] s.tables@[ta].elem@[idx]) == spec_alloc_table_slot(
            s0,
            ta,
            idx,
        ) by {
            if ta < s0.tables@.len() {
                assert(s.tables@[ta] == s0.tables@[ta]);
            } else {
                let k = ta - s0.tables@.len();
                assert(s.tables@[s0.tables@.len() + k].elem@ == Seq::new(
                    mi.tables@[k].type_.limits.min as nat,
                    |j: int| FuncElem(None),
                ));
                assert(s.tables@[ta].elem@[idx] == FuncElem(None));
            }
        }
        assert forall|ta: int| 0 <= ta < s0.tables@.len() implies (#[trigger] s.tables@[ta].max)
            == s0.tables@[ta].max by {
            assert(s.tables@[ta].elem@.len() == spec_table_size_after_alloc(s0, mi, ta));
            assert(s.tables@[ta] == s0.tables@[ta]);
        }
        assert forall|ta: int| s0.tables@.len() <= ta < s.tables@.len() implies (
        #[trigger] s.tables@[ta].max) == mi.tables@[ta - s0.tables@.len()].type_.limits.max by {
            assert(s.tables@[ta].elem@.len() == spec_table_size_after_alloc(s0, mi, ta));
        }
        assert(spec_tables_state(s0, mi, evs, 0, s.tables@));
        assert forall|ma: int| 0 <= ma < s.mems@.len() implies {
            &&& (#[trigger] s.mems@[ma].data@).len() == spec_mem_size_after_alloc(s0, mi, ma)
            &&& (ma < s0.mems@.len() ==> s.mems@[ma] == s0.mems@[ma])
            &&& (s0.mems@.len() <= ma ==> s.mems@[ma].max == mi.mems@[ma
                - s0.mems@.len()].type_.limits.max)
        } by {
            if ma < s0.mems@.len() {
                assert(s.mems@.subrange(0, s0.mems@.len() as int)[ma] == s0.mems@[ma]);
            } else {
                let k = ma - s0.mems@.len();
                assert(s.mems@[s0.mems@.len() + k].data@ == Seq::new(
                    mi.mems@[k].type_.limits.min as nat * WASM_PAGE_SIZE as nat,
                    |j: int| 0u8,
                ));
            }
        }
        assert forall|ma: int, idx: int|
            0 <= ma < s.mems@.len() && 0 <= idx < spec_mem_size_after_alloc(s0, mi, ma) implies (
        #[trigger] s.mems@[ma].data@[idx]) == spec_alloc_mem_byte(s0, ma, idx) by {
            if ma < s0.mems@.len() {
                assert(s.mems@[ma] == s0.mems@[ma]);
            } else {
                let k = ma - s0.mems@.len();
                assert(s.mems@[s0.mems@.len() + k].data@ == Seq::new(
                    mi.mems@[k].type_.limits.min as nat * WASM_PAGE_SIZE as nat,
                    |j: int| 0u8,
                ));
                assert(s.mems@[ma].data@[idx] == 0u8);
            }
        }
        assert forall|ma: int| 0 <= ma < s0.mems@.len() implies (#[trigger] s.mems@[ma].max)
            == s0.mems@[ma].max by {
            assert(s.mems@[ma].data@.len() == spec_mem_size_after_alloc(s0, mi, ma));
            assert(s.mems@[ma] == s0.mems@[ma]);
        }
        assert forall|ma: int| s0.mems@.len() <= ma < s.mems@.len() implies (
        #[trigger] s.mems@[ma].max) == mi.mems@[ma - s0.mems@.len()].type_.limits.max by {
            assert(s.mems@[ma].data@.len() == spec_mem_size_after_alloc(s0, mi, ma));
        }
        assert(spec_mems_state(s0, mi, evs, 0, s.mems@));
    }

    let fas = dup_addrs(&s.modules[a].funcaddrs);
    let tas_mod = dup_addrs(&s.modules[a].tableaddrs);
    let mas_mod = dup_addrs(&s.modules[a].memaddrs);
    proof {
        assert(s.modules@[a as int] == s.modules@.last());
        assert(fas@ == spec_resolved_funcaddrs(s0, mi, evs));
        assert(tas_mod@ == spec_resolved_tableaddrs(s0, mi, evs));
        assert(mas_mod@ == spec_resolved_memaddrs(s0, mi, evs));
        assert forall|i: int| 0 <= i < mi.elem@.len() implies 0 <= #[trigger] spec_elem_table_addr(
            s0,
            mi,
            evs,
            i,
        ) < s0.tables@.len() + mi.tables@.len() by {
            let ti = mi.elem@[i].table as int;
            let nim = spec_table_addrs(evs).len() as int;
            if ti < nim {
                assert(spec_resolved_tableaddrs(s0, mi, evs)[ti] == spec_table_addrs(evs)[ti]);
            } else {
                assert(spec_resolved_tableaddrs(s0, mi, evs)[ti] == (s0.tables@.len() + (ti
                    - nim)) as usize);
            }
        }
        assert forall|i: int| 0 <= i < mi.data@.len() implies 0 <= #[trigger] spec_data_mem_addr(
            s0,
            mi,
            evs,
            i,
        ) < s0.mems@.len() + mi.mems@.len() by {
            let di = mi.data@[i].data as int;
            let nim = spec_mem_addrs(evs).len() as int;
            if di < nim {
                assert(spec_resolved_memaddrs(s0, mi, evs)[di] == spec_mem_addrs(evs)[di]);
            } else {
                assert(spec_resolved_memaddrs(s0, mi, evs)[di] == (s0.mems@.len() + (di
                    - nim)) as usize);
            }
        }
    }

    let mut i: usize = 0;
    while i < module.elem.len()
        invariant
            i <= module.elem@.len(),
            s0 == *old(s),
            mi == *module,
            evs == externvals@,
            evs.len() == mi.imports@.len(),
            forall|j: int| 0 <= j < evs.len() ==> spec_import_ok(s0, mi, evs, j),
            spec_pools_allocated(s0, mi, evs, *s),
            spec_tables_state(s0, mi, evs, 0, s.tables@),
            spec_mems_state(s0, mi, evs, 0, s.mems@),
            tas_mod@ == spec_resolved_tableaddrs(s0, mi, evs),
            eoffs@.len() == mi.elem@.len(),
            forall|j: int|
                0 <= j < mi.elem@.len() ==> Some(Val::I32(#[trigger] eoffs@[j]))
                    == spec_eval_const(s0, spec_global_addrs(evs), mi.elem@[j].offset.body@),
            forall|j: int|
                0 <= j < mi.elem@.len() ==> (#[trigger] mi.elem@[j].table as int)
                    < spec_resolved_tableaddrs(s0, mi, evs).len(),
            forall|j: int|
                0 <= j < mi.elem@.len() ==> 0 <= #[trigger] spec_elem_table_addr(s0, mi, evs, j)
                    < s0.tables@.len() + mi.tables@.len(),
            forall|j: int| 0 <= j < i ==> spec_elem_fits(s0, mi, evs, j),
        decreases module.elem@.len() - i,
    {
        let ti = module.elem[i].table as usize;
        let ta = tas_mod[ti];
        proof {
            assert(spec_elem_table_addr(s0, mi, evs, i as int) == ta as int);
            assert((ta as int) < s.tables@.len());
            assert(s.tables@[ta as int].elem@.len() == spec_table_size_after_alloc(
                s0,
                mi,
                ta as int,
            ));
        }
        let size = s.tables[ta].elem.len();
        let eo = eoffs[i] as usize;
        if eo > size || module.elem[i].init.len() > size - eo {
            proof {
                assert(eo as int == spec_elem_offset(s0, mi, evs, i as int));
                assert(!spec_elem_fits(s0, mi, evs, i as int));
            }
            return Err(InstantiationError::ElemIdxOutOfBounds);
        }
        proof {
            assert(eo as int == spec_elem_offset(s0, mi, evs, i as int));
            assert(spec_elem_fits(s0, mi, evs, i as int));
        }
        i = i + 1;
    }

    let mut i: usize = 0;
    while i < module.data.len()
        invariant
            i <= module.data@.len(),
            s0 == *old(s),
            mi == *module,
            evs == externvals@,
            evs.len() == mi.imports@.len(),
            forall|j: int| 0 <= j < evs.len() ==> spec_import_ok(s0, mi, evs, j),
            forall|j: int| 0 <= j < mi.elem@.len() ==> spec_elem_fits(s0, mi, evs, j),
            spec_pools_allocated(s0, mi, evs, *s),
            spec_tables_state(s0, mi, evs, 0, s.tables@),
            spec_mems_state(s0, mi, evs, 0, s.mems@),
            mas_mod@ == spec_resolved_memaddrs(s0, mi, evs),
            doffs@.len() == mi.data@.len(),
            forall|j: int|
                0 <= j < mi.data@.len() ==> Some(Val::I32(#[trigger] doffs@[j]))
                    == spec_eval_const(s0, spec_global_addrs(evs), mi.data@[j].offset.body@),
            forall|j: int|
                0 <= j < mi.data@.len() ==> (#[trigger] mi.data@[j].data as int)
                    < spec_resolved_memaddrs(s0, mi, evs).len(),
            forall|j: int|
                0 <= j < mi.data@.len() ==> 0 <= #[trigger] spec_data_mem_addr(s0, mi, evs, j)
                    < s0.mems@.len() + mi.mems@.len(),
            forall|j: int| 0 <= j < i ==> spec_data_fits(s0, mi, evs, j),
        decreases module.data@.len() - i,
    {
        let di = module.data[i].data as usize;
        let ma = mas_mod[di];
        proof {
            assert(spec_data_mem_addr(s0, mi, evs, i as int) == ma as int);
            assert((ma as int) < s.mems@.len());
            assert(s.mems@[ma as int].data@.len() == spec_mem_size_after_alloc(
                s0,
                mi,
                ma as int,
            ));
        }
        let size = s.mems[ma].data.len();
        let doff = doffs[i] as usize;
        if doff > size || module.data[i].init.len() > size - doff {
            proof {
                assert(doff as int == spec_data_offset(s0, mi, evs, i as int));
                assert(!spec_data_fits(s0, mi, evs, i as int));
            }
            return Err(InstantiationError::DataIdxOutOfBounds);
        }
        proof {
            assert(doff as int == spec_data_offset(s0, mi, evs, i as int));
            assert(spec_data_fits(s0, mi, evs, i as int));
        }
        i = i + 1;
    }

    proof {
        assert forall|j: int| 0 <= j < mi.elem@.len() implies (#[trigger] eoffs@[j] as int)
            == spec_elem_offset(s0, mi, evs, j) by {
            assert(Some(Val::I32(eoffs@[j])) == spec_eval_const(
                s0,
                spec_global_addrs(evs),
                mi.elem@[j].offset.body@,
            ));
        }
        assert forall|j: int| 0 <= j < mi.data@.len() implies (#[trigger] doffs@[j] as int)
            == spec_data_offset(s0, mi, evs, j) by {
            assert(Some(Val::I32(doffs@[j])) == spec_eval_const(
                s0,
                spec_global_addrs(evs),
                mi.data@[j].offset.body@,
            ));
        }
    }
    proof {
        assert forall|i: int, j: int|
            0 <= i < mi.elem@.len() && 0 <= j < mi.elem@[i].init@.len() implies (
        #[trigger] mi.elem@[i].init@[j] as int) < spec_resolved_funcaddrs(s0, mi, evs).len() by {
            assert(0 <= mi.elem@[i].table as int);
        }
    }
    apply_all_elems(s, module, &eoffs, &tas_mod, &fas, Ghost(s0), Ghost(evs));
    apply_all_datas(s, module, &doffs, &mas_mod, Ghost(s0), Ghost(evs));

    let start_prep: Option<InvokePrep> = match &module.start {
        None => None,
        Some(st) => {
            let fa = fas[st.func as usize];
            let nfuncs = s.funcs.len();
            proof {
                assert(nfuncs == s0.funcs@.len() + mi.funcs@.len());
                let k = st.func as int;
                let nim = spec_func_addrs(evs).len() as int;
                if k < nim {
                    assert(spec_resolved_funcaddrs(s0, mi, evs)[k] == spec_func_addrs(evs)[k]);
                    assert((fa as int) < s0.funcs@.len());
                    assert(s.funcs@.subrange(0, s0.funcs@.len() as int)[fa as int]
                        == s0.funcs@[fa as int]);
                    assert(s.funcs@[fa as int] == s0.funcs@[fa as int]);
                } else {
                    assert(spec_resolved_funcaddrs(s0, mi, evs)[k] == (s0.funcs@.len() + (k
                        - nim)) as usize);
                    let kk = k - nim;
                    assert(kk < mi.funcs@.len());
                    assert(s0.funcs@.len() + kk < nfuncs);
                    assert(fa as int == s0.funcs@.len() + kk);
                    assert(s.funcs@[s0.funcs@.len() + kk] matches
                        crate::runtime::FuncInst::Internal { type_, .. } && type_@
                        == mi.types@[mi.funcs@[kk].type_ as int]@);
                    assert(s.funcs@[fa as int] matches crate::runtime::FuncInst::Internal {
                        type_,
                        ..
                    } && type_@ == mi.types@[mi.funcs@[k - nim].type_ as int]@);
                }
                assert(s.funcs@[fa as int].type_spec()@ == spec_instance_functype(s0, mi, evs, k));
            }
            let noargs: Vec<Val> = Vec::new();
            match invoke(s, fa, &noargs) {
                Ok(p) => Some(p),
                Err(_) => {
                    proof {
                        assert(false);
                    }
                    vstd::pervasive::unreached()
                },
            }
        },
    };
    Ok((a, start_prep))
}

} // verus!

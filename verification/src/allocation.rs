//! Allocation: materializing typed entities into the store and growing
//! tables and memories. All allocators append to a pool and return the new
//! address, which equals the pool's length before the call.

use vstd::prelude::*;
use crate::types::{FuncType, TableType, MemType, GlobalType, Val, Limits};
use crate::ast::{Module, Func, func_equiv, ExportDesc};
use crate::runtime::{Store, FuncInst, TableInst, MemInst, GlobalInst, ModuleInst, ExportInst,
    FuncElem, ExternVal, HostFunc, FuncAddr, TableAddr, MemAddr, GlobalAddr, ModuleAddr,
    WASM_PAGE_SIZE};

verus! {

/// Failures of `grow_table_by` and `grow_memory_by`.
#[derive(Clone, Copy, Debug, PartialEq, Eq, Structural)]
pub enum AllocError {
    AllocatingTableBeyondMaxLimit,
    AllocatingMemBeyondMaxLimit,
}

/// Result of a grow operation.
pub type AResult = Result<(), AllocError>;

/// The function addresses among a row of external values, in order.
pub open spec fn spec_func_addrs(evs: Seq<ExternVal>) -> Seq<FuncAddr>
    decreases evs.len(),
{
    if evs.len() == 0 {
        Seq::empty()
    } else {
        let rest = spec_func_addrs(evs.drop_last());
        match evs.last() {
            ExternVal::Func(a) => rest.push(a),
            _ => rest,
        }
    }
}

/// The table addresses among a row of external values, in order.
pub open spec fn spec_table_addrs(evs: Seq<ExternVal>) -> Seq<TableAddr>
    decreases evs.len(),
{
    if evs.len() == 0 {
        Seq::empty()
    } else {
        let rest = spec_table_addrs(evs.drop_last());
        match evs.last() {
            ExternVal::Table(a) => rest.push(a),
            _ => rest,
        }
    }
}

/// The memory addresses among a row of external values, in order.
pub open spec fn spec_mem_addrs(evs: Seq<ExternVal>) -> Seq<MemAddr>
    decreases evs.len(),
{
    if evs.len() == 0 {
        Seq::empty()
    } else {
        let rest = spec_mem_addrs(evs.drop_last());
        match evs.last() {
            ExternVal::Mem(a) => rest.push(a),
            _ => rest,
        }
    }
}

/// The global addresses among a row of external values, in order.
pub open spec fn spec_global_addrs(evs: Seq<ExternVal>) -> Seq<GlobalAddr>
    decreases evs.len(),
{
    if evs.len() == 0 {
        Seq::empty()
    } else {
        let rest = spec_global_addrs(evs.drop_last());
        match evs.last() {
            ExternVal::Global(a) => rest.push(a),
            _ => rest,
        }
    }
}

/// The complete function address vector of an instance allocated against
/// `old_s`: imported addresses first, then the newly allocated ones.
pub open spec fn spec_resolved_funcaddrs(old_s: Store, m: Module, evs: Seq<ExternVal>) -> Seq<
    FuncAddr,
> {
    spec_func_addrs(evs) + Seq::new(m.funcs@.len(), |k: int| (old_s.funcs@.len() + k) as usize)
}

/// The complete table address vector of an instance allocated against
/// `old_s`.
pub open spec fn spec_resolved_tableaddrs(old_s: Store, m: Module, evs: Seq<ExternVal>) -> Seq<
    TableAddr,
> {
    spec_table_addrs(evs) + Seq::new(m.tables@.len(), |k: int| (old_s.tables@.len() + k) as usize)
}

/// The complete memory address vector of an instance allocated against
/// `old_s`.
pub open spec fn spec_resolved_memaddrs(old_s: Store, m: Module, evs: Seq<ExternVal>) -> Seq<
    MemAddr,
> {
    spec_mem_addrs(evs) + Seq::new(m.mems@.len(), |k: int| (old_s.mems@.len() + k) as usize)
}

/// The complete global address vector of an instance allocated against
/// `old_s`.
pub open spec fn spec_resolved_globaladdrs(old_s: Store, m: Module, evs: Seq<ExternVal>) -> Seq<
    GlobalAddr,
> {
    spec_global_addrs(evs) + Seq::new(
        m.globals@.len(),
        |k: int| (old_s.globals@.len() + k) as usize,
    )
}

/// The external value an export resolves to, given the instance's address
/// vectors.
pub open spec fn spec_export_value(
    fa: Seq<FuncAddr>,
    ta: Seq<TableAddr>,
    ma: Seq<MemAddr>,
    ga: Seq<GlobalAddr>,
    desc: ExportDesc,
) -> ExternVal {
    match desc {
        ExportDesc::Func(x) => ExternVal::Func(fa[x as int]),
        ExportDesc::Table(x) => ExternVal::Table(ta[x as int]),
        ExportDesc::Mem(x) => ExternVal::Mem(ma[x as int]),
        ExportDesc::Global(x) => ExternVal::Global(ga[x as int]),
    }
}

/// Whether an export description indexes within the given vector lengths.
pub open spec fn spec_export_desc_in_range(
    desc: ExportDesc,
    nf: int,
    nt: int,
    nm: int,
    ng: int,
) -> bool {
    match desc {
        ExportDesc::Func(x) => x < nf,
        ExportDesc::Table(x) => x < nt,
        ExportDesc::Mem(x) => x < nm,
        ExportDesc::Global(x) => x < ng,
    }
}

/// Records an internal function in the store, its type resolved through the
/// module's type table; `moduleaddr` may refer forward to an instance not
/// yet pushed.
pub fn alloc_function(s: &mut Store, func: &Func, module: &Module, moduleaddr: ModuleAddr) -> (a:
    FuncAddr)
    requires
        (func.type_ as int) < module.types@.len(),
    ensures
        a == old(s).funcs@.len(),
        final(s).funcs@.len() == old(s).funcs@.len() + 1,
        final(s).funcs@.drop_last() == old(s).funcs@,
        (final(s).funcs@.last() matches FuncInst::Internal { type_, module: ma, code } && {
            &&& type_@ == module.types@[func.type_ as int]@
            &&& ma == moduleaddr
            &&& func_equiv(*func, code)
        }),
        final(s).tables@ == old(s).tables@,
        final(s).mems@ == old(s).mems@,
        final(s).globals@ == old(s).globals@,
        final(s).modules@ == old(s).modules@,
{
    let a = s.funcs.len();
    let functype = crate::types::dup_functype(&module.types[func.type_ as usize]);
    let funcinst = FuncInst::Internal { type_: functype, module: moduleaddr, code: crate::ast::dup_func(func) };
    s.funcs.push(funcinst);
    proof {
        assert(s.funcs@.drop_last() =~= old(s).funcs@);
    }
    a
}

/// Records a host function with its declared type.
pub fn alloc_host_function(s: &mut Store, hostfunc: HostFunc, functype: FuncType) -> (a: FuncAddr)
    ensures
        a == old(s).funcs@.len(),
        final(s).funcs@.len() == old(s).funcs@.len() + 1,
        final(s).funcs@.drop_last() == old(s).funcs@,
        final(s).funcs@.last() == (FuncInst::Host { type_: functype, hostcode: hostfunc }),
        final(s).tables@ == old(s).tables@,
        final(s).mems@ == old(s).mems@,
        final(s).globals@ == old(s).globals@,
        final(s).modules@ == old(s).modules@,
{
    let a = s.funcs.len();
    let funcinst = FuncInst::Host { type_: functype, hostcode: hostfunc };
    s.funcs.push(funcinst);
    proof {
        assert(s.funcs@.drop_last() =~= old(s).funcs@);
    }
    a
}

/// Creates a table instance with `min` empty slots.
pub fn alloc_table(s: &mut Store, tabletype: &TableType) -> (a: TableAddr)
    ensures
        a == old(s).tables@.len(),
        final(s).tables@.len() == old(s).tables@.len() + 1,
        final(s).tables@.drop_last() == old(s).tables@,
        final(s).tables@.last().elem@ == Seq::new(
            tabletype.limits.min as nat,
            |j: int| FuncElem(None),
        ),
        final(s).tables@.last().max == tabletype.limits.max,
        final(s).funcs@ == old(s).funcs@,
        final(s).mems@ == old(s).mems@,
        final(s).globals@ == old(s).globals@,
        final(s).modules@ == old(s).modules@,
{
    let a = s.tables.len();
    let n = tabletype.limits.min;
    let mut elem: Vec<FuncElem> = Vec::new();
    let mut i: u32 = 0;
    while i < n
        invariant
            i <= n,
            elem@ == Seq::new(i as nat, |j: int| FuncElem(None)),
        decreases n - i,
    {
        elem.push(FuncElem(None));
        proof {
            assert(elem@ =~= Seq::new(i as nat + 1, |j: int| FuncElem(None)));
        }
        i = i + 1;
    }
    let tableinst = TableInst { elem, max: tabletype.limits.max };
    s.tables.push(tableinst);
    proof {
        assert(s.tables@.drop_last() =~= old(s).tables@);
    }
    a
}

/// Creates a memory instance of `min` zeroed pages.
pub fn alloc_mem(s: &mut Store, memtype: &MemType) -> (a: MemAddr)
    requires
        memtype.limits.min as int * WASM_PAGE_SIZE as int <= usize::MAX as int,
    ensures
        a == old(s).mems@.len(),
        final(s).mems@.len() == old(s).mems@.len() + 1,
        final(s).mems@.drop_last() == old(s).mems@,
        final(s).mems@.last().data@ == Seq::new(
            memtype.limits.min as nat * WASM_PAGE_SIZE as nat,
            |j: int| 0u8,
        ),
        final(s).mems@.last().max == memtype.limits.max,
        final(s).funcs@ == old(s).funcs@,
        final(s).tables@ == old(s).tables@,
        final(s).globals@ == old(s).globals@,
        final(s).modules@ == old(s).modules@,
{
    let a = s.mems.len();
    let n = memtype.limits.min;
    let len: usize = (n as usize) * WASM_PAGE_SIZE;
    let mut data: Vec<u8> = Vec::new();
    let mut i: usize = 0;
    while i < len
        invariant
            i <= len,
            data@ == Seq::new(i as nat, |j: int| 0u8),
        decreases len - i,
    {
        data.push(0u8);
        proof {
            assert(data@ =~= Seq::new(i as nat + 1, |j: int| 0u8));
        }
        i = i + 1;
    }
    let meminst = MemInst { data, max: memtype.limits.max };
    s.mems.push(meminst);
    proof {
        assert(s.mems@.drop_last() =~= old(s).mems@);
        assert(len as nat == memtype.limits.min as nat * WASM_PAGE_SIZE as nat);
    }
    a
}

/// Records a global instance holding `val`, whose type must be the declared
/// value type.
pub fn alloc_global(s: &mut Store, globaltype: &GlobalType, val: Val) -> (a: GlobalAddr)
    requires
        val.ty_spec() == globaltype.valtype,
    ensures
        a == old(s).globals@.len(),
        final(s).globals@ == old(s).globals@.push(
            GlobalInst { value: val, mutability: globaltype.mutability },
        ),
        final(s).funcs@ == old(s).funcs@,
        final(s).tables@ == old(s).tables@,
        final(s).mems@ == old(s).mems@,
        final(s).modules@ == old(s).modules@,
{
    let a = s.globals.len();
    let globalinst = GlobalInst { value: val, mutability: globaltype.mutability };
    s.globals.push(globalinst);
    a
}

/// Whether growing a table by `n` slots would exceed its declared maximum.
pub open spec fn spec_table_grow_fails(t: TableInst, n: usize) -> bool {
    match t.max {
        Some(max) => t.elem@.len() + n > max,
        None => false,
    }
}

/// Appends `n` empty slots to a table, atomically: on failure the table is
/// untouched.
pub fn grow_table_by(tableinst: &mut TableInst, n: usize) -> (r: AResult)
    requires
        old(tableinst).elem@.len() + n <= usize::MAX,
    ensures
        r is Err <==> spec_table_grow_fails(*old(tableinst), n),
        r matches Err(e) ==> e == AllocError::AllocatingTableBeyondMaxLimit && *final(tableinst)
            == *old(tableinst),
        r is Ok ==> {
            &&& final(tableinst).elem@.len() == old(tableinst).elem@.len() + n
            &&& final(tableinst).elem@.subrange(0, old(tableinst).elem@.len() as int) == old(tableinst).elem@
            &&& forall|j: int|
                old(tableinst).elem@.len() <= j < final(tableinst).elem@.len() ==> final(tableinst).elem@[j] == FuncElem(None)
            &&& final(tableinst).max == old(tableinst).max
        },
{
    if let Some(max) = tableinst.max {
        if (max as usize) < tableinst.elem.len() + n {
            return Err(AllocError::AllocatingTableBeyondMaxLimit);
        }
    }
    let mut i: usize = 0;
    while i < n
        invariant
            i <= n,
            tableinst.elem@.len() == old(tableinst).elem@.len() + i,
            tableinst.elem@.subrange(0, old(tableinst).elem@.len() as int) == old(tableinst).elem@,
            forall|j: int|
                old(tableinst).elem@.len() <= j < tableinst.elem@.len() ==> tableinst.elem@[j]
                    == FuncElem(None),
            tableinst.max == old(tableinst).max,
        decreases n - i,
    {
        tableinst.elem.push(FuncElem(None));
        proof {
            assert(tableinst.elem@.subrange(0, old(tableinst).elem@.len() as int) =~= old(tableinst).elem@);
        }
        i = i + 1;
    }
    Ok(())
}

/// Whether growing a memory by `n` pages would exceed its declared maximum.
pub open spec fn spec_mem_grow_fails(m: MemInst, n: usize) -> bool {
    match m.max {
        Some(max) => (m.data@.len() as int + n as int * WASM_PAGE_SIZE as int) / WASM_PAGE_SIZE as int > max,
        None => false,
    }
}

/// Appends `n` zeroed pages to a memory, atomically: on failure the memory
/// is untouched. On success the byte length grows by exactly `n` pages and
/// stays within the declared maximum.
pub fn grow_memory_by(meminst: &mut MemInst, n: usize) -> (r: AResult)
    requires
        old(meminst).data@.len() + n * WASM_PAGE_SIZE <= usize::MAX,
        old(meminst).data@.len() as int % WASM_PAGE_SIZE as int == 0,
    ensures
        r is Err <==> spec_mem_grow_fails(*old(meminst), n),
        r matches Err(e) ==> e == AllocError::AllocatingMemBeyondMaxLimit && *final(meminst)
            == *old(meminst),
        r is Ok ==> {
            &&& final(meminst).data@.len() == old(meminst).data@.len() + n * WASM_PAGE_SIZE
            &&& final(meminst).data@.subrange(0, old(meminst).data@.len() as int) == old(meminst).data@
            &&& forall|j: int|
                old(meminst).data@.len() <= j < final(meminst).data@.len() ==> final(meminst).data@[j] == 0u8
            &&& final(meminst).max == old(meminst).max
            &&& final(meminst).max matches Some(max) ==> final(meminst).data@.len() as int
                / WASM_PAGE_SIZE as int <= max
        },
{
    let len = n * WASM_PAGE_SIZE;
    let pages = meminst.data.len() / WASM_PAGE_SIZE;
    proof {
        lemma_page_div(old(meminst).data@.len() as int, n as int);
        let ghost d = old(meminst).data@.len() as int;
        assert(pages + n <= usize::MAX) by (nonlinear_arith)
            requires
                pages == d / WASM_PAGE_SIZE as int,
                d % WASM_PAGE_SIZE as int == 0,
                d >= 0,
                d + n * WASM_PAGE_SIZE <= usize::MAX,
                WASM_PAGE_SIZE == 65536usize;
    }
    if let Some(max) = meminst.max {
        if (max as usize) < pages + n {
            return Err(AllocError::AllocatingMemBeyondMaxLimit);
        }
    }
    let mut i: usize = 0;
    while i < len
        invariant
            i <= len,
            meminst.data@.len() == old(meminst).data@.len() + i,
            meminst.data@.subrange(0, old(meminst).data@.len() as int) == old(meminst).data@,
            forall|j: int|
                old(meminst).data@.len() <= j < meminst.data@.len() ==> meminst.data@[j] == 0u8,
            meminst.max == old(meminst).max,
        decreases len - i,
    {
        meminst.data.push(0u8);
        proof {
            assert(meminst.data@.subrange(0, old(meminst).data@.len() as int) =~= old(meminst).data@);
        }
        i = i + 1;
    }
    Ok(())
}

/// With `d` a multiple of the page size, adding `n` pages adds `n` to the
/// page count.
proof fn lemma_page_div(d: int, n: int)
    requires
        d % WASM_PAGE_SIZE as int == 0,
        d >= 0,
        n >= 0,
    ensures
        (d + n * WASM_PAGE_SIZE) / WASM_PAGE_SIZE as int == d / WASM_PAGE_SIZE as int + n,
{
    let p = WASM_PAGE_SIZE as int;
    let q = d / p;
    assert(d == q * p) by (nonlinear_arith)
        requires d % p == 0, d >= 0, p == 65536, q == d / p,
    ;
    assert((q * p + n * p) / p == q + n) by (nonlinear_arith)
        requires p == 65536, q >= 0, n >= 0,
    ;
}


/// Collects the function addresses among a row of external values.
pub fn filter_func_addrs(evs: &Vec<ExternVal>) -> (r: Vec<FuncAddr>)
    ensures
        r@ == spec_func_addrs(evs@),
{
    let mut out: Vec<FuncAddr> = Vec::new();
    let mut i: usize = 0;
    while i < evs.len()
        invariant
            i <= evs.len(),
            out@ == spec_func_addrs(evs@.subrange(0, i as int)),
        decreases evs.len() - i,
    {
        if let ExternVal::Func(a) = evs[i] {
            out.push(a);
        }
        proof {
            let cur = evs@.subrange(0, i as int + 1);
            assert(cur.drop_last() =~= evs@.subrange(0, i as int));
            assert(cur.last() == evs@[i as int]);
        }
        i = i + 1;
    }
    proof {
        assert(evs@.subrange(0, evs@.len() as int) =~= evs@);
    }
    out
}

/// Collects the table addresses among a row of external values.
pub fn filter_table_addrs(evs: &Vec<ExternVal>) -> (r: Vec<TableAddr>)
    ensures
        r@ == spec_table_addrs(evs@),
{
    let mut out: Vec<TableAddr> = Vec::new();
    let mut i: usize = 0;
    while i < evs.len()
        invariant
            i <= evs.len(),
            out@ == spec_table_addrs(evs@.subrange(0, i as int)),
        decreases evs.len() - i,
    {
        if let ExternVal::Table(a) = evs[i] {
            out.push(a);
        }
        proof {
            let cur = evs@.subrange(0, i as int + 1);
            assert(cur.drop_last() =~= evs@.subrange(0, i as int));
            assert(cur.last() == evs@[i as int]);
        }
        i = i + 1;
    }
    proof {
        assert(evs@.subrange(0, evs@.len() as int) =~= evs@);
    }
    out
}

/// Collects the memory addresses among a row of external values.
pub fn filter_mem_addrs(evs: &Vec<ExternVal>) -> (r: Vec<MemAddr>)
    ensures
        r@ == spec_mem_addrs(evs@),
{
    let mut out: Vec<MemAddr> = Vec::new();
    let mut i: usize = 0;
    while i < evs.len()
        invariant
            i <= evs.len(),
            out@ == spec_mem_addrs(evs@.subrange(0, i as int)),
        decreases evs.len() - i,
    {
        if let ExternVal::Mem(a) = evs[i] {
            out.push(a);
        }
        proof {
            let cur = evs@.subrange(0, i as int + 1);
            assert(cur.drop_last() =~= evs@.subrange(0, i as int));
            assert(cur.last() == evs@[i as int]);
        }
        i = i + 1;
    }
    proof {
        assert(evs@.subrange(0, evs@.len() as int) =~= evs@);
    }
    out
}

/// Collects the global addresses among a row of external values.
pub fn filter_global_addrs(evs: &Vec<ExternVal>) -> (r: Vec<GlobalAddr>)
    ensures
        r@ == spec_global_addrs(evs@),
{
    let mut out: Vec<GlobalAddr> = Vec::new();
    let mut i: usize = 0;
    while i < evs.len()
        invariant
            i <= evs.len(),
            out@ == spec_global_addrs(evs@.subrange(0, i as int)),
        decreases evs.len() - i,
    {
        if let ExternVal::Global(a) = evs[i] {
            out.push(a);
        }
        proof {
            let cur = evs@.subrange(0, i as int + 1);
            assert(cur.drop_last() =~= evs@.subrange(0, i as int));
            assert(cur.last() == evs@[i as int]);
        }
        i = i + 1;
    }
    proof {
        assert(evs@.subrange(0, evs@.len() as int) =~= evs@);
    }
    out
}

/// Appends `extra` fresh addresses starting at `base` to `dst`.
pub fn push_fresh_addrs(dst: &mut Vec<usize>, base: usize, extra: usize) -> (u: ())
    requires
        base + extra <= usize::MAX,
    ensures
        final(dst)@ == old(dst)@ + Seq::new(extra as nat, |k: int| (base + k) as usize),
{
    let mut k: usize = 0;
    while k < extra
        invariant
            k <= extra,
            base + extra <= usize::MAX,
            dst@ == old(dst)@ + Seq::new(k as nat, |j: int| (base + j) as usize),
        decreases extra - k,
    {
        dst.push(base + k);
        proof {
            assert(dst@ =~= old(dst)@ + Seq::new(k as nat + 1, |j: int| (base + j) as usize));
        }
        k = k + 1;
    }
}

/// Allocates every own function of the module against `moduleaddr`, which
/// may refer forward to an instance not yet pushed.
fn alloc_module_funcs(s: &mut Store, module: &Module, moduleaddr: ModuleAddr)
    requires
        forall|i: int|
            0 <= i < module.funcs@.len() ==> (module.funcs@[i].type_ as int)
                < module.types@.len(),
    ensures
        final(s).funcs@.len() == old(s).funcs@.len() + module.funcs@.len(),
        final(s).funcs@.subrange(0, old(s).funcs@.len() as int) == old(s).funcs@,
        forall|k: int|
            0 <= k < module.funcs@.len() ==> (#[trigger] final(s).funcs@[old(s).funcs@.len() + k]
                matches FuncInst::Internal { type_, module: ma, code } && {
                &&& type_@ == module.types@[module.funcs@[k].type_ as int]@
                &&& ma == moduleaddr
                &&& func_equiv(module.funcs@[k], code)
            }),
        final(s).tables@ == old(s).tables@,
        final(s).mems@ == old(s).mems@,
        final(s).globals@ == old(s).globals@,
        final(s).modules@ == old(s).modules@,
{
    let n0 = s.funcs.len();
    let mut i: usize = 0;
    while i < module.funcs.len()
        invariant
            i <= module.funcs@.len(),
            forall|j: int|
                0 <= j < module.funcs@.len() ==> (module.funcs@[j].type_ as int)
                    < module.types@.len(),
            n0 == old(s).funcs@.len(),
            s.funcs@.len() == n0 + i,
            s.funcs@.subrange(0, n0 as int) == old(s).funcs@,
            forall|k: int|
                0 <= k < i ==> (#[trigger] s.funcs@[n0 + k] matches FuncInst::Internal {
                    type_,
                    module: ma,
                    code,
                } && {
                    &&& type_@ == module.types@[module.funcs@[k].type_ as int]@
                    &&& ma == moduleaddr
                    &&& func_equiv(module.funcs@[k], code)
                }),
            s.tables@ == old(s).tables@,
            s.mems@ == old(s).mems@,
            s.globals@ == old(s).globals@,
            s.modules@ == old(s).modules@,
        decreases module.funcs@.len() - i,
    {
        let ghost prev = s.funcs@;
        let _a = alloc_function(s, &module.funcs[i], module, moduleaddr);
        proof {
            assert(s.funcs@.subrange(0, n0 as int) =~= prev.subrange(0, n0 as int));
            assert forall|k: int| 0 <= k < i implies #[trigger] s.funcs@[n0 + k] == prev[n0 + k] by {
                assert(s.funcs@.drop_last()[n0 + k] == prev[n0 + k]);
            }
        }
        i = i + 1;
    }
}

/// Allocates every own table of the module.
fn alloc_module_tables(s: &mut Store, module: &Module)
    ensures
        final(s).tables@.len() == old(s).tables@.len() + module.tables@.len(),
        final(s).tables@.subrange(0, old(s).tables@.len() as int) == old(s).tables@,
        forall|k: int|
            0 <= k < module.tables@.len() ==> {
                &&& #[trigger] final(s).tables@[old(s).tables@.len() + k].elem@ == Seq::new(
                    module.tables@[k].type_.limits.min as nat,
                    |j: int| FuncElem(None),
                )
                &&& final(s).tables@[old(s).tables@.len() + k].max
                    == module.tables@[k].type_.limits.max
            },
        final(s).funcs@ == old(s).funcs@,
        final(s).mems@ == old(s).mems@,
        final(s).globals@ == old(s).globals@,
        final(s).modules@ == old(s).modules@,
{
    let t0 = s.tables.len();
    let mut i: usize = 0;
    while i < module.tables.len()
        invariant
            i <= module.tables@.len(),
            t0 == old(s).tables@.len(),
            s.tables@.len() == t0 + i,
            s.tables@.subrange(0, t0 as int) == old(s).tables@,
            forall|k: int|
                0 <= k < i ==> {
                    &&& #[trigger] s.tables@[t0 + k].elem@ == Seq::new(
                        module.tables@[k].type_.limits.min as nat,
                        |j: int| FuncElem(None),
                    )
                    &&& s.tables@[t0 + k].max == module.tables@[k].type_.limits.max
                },
            s.funcs@ == old(s).funcs@,
            s.mems@ == old(s).mems@,
            s.globals@ == old(s).globals@,
            s.modules@ == old(s).modules@,
        decreases module.tables@.len() - i,
    {
        let ghost prev = s.tables@;
        let _a = alloc_table(s, &module.tables[i].type_);
        proof {
            assert(s.tables@.subrange(0, t0 as int) =~= prev.subrange(0, t0 as int));
            assert forall|k: int| 0 <= k < i implies #[trigger] s.tables@[t0 + k] == prev[t0 + k] by {
                assert(s.tables@.drop_last()[t0 + k] == prev[t0 + k]);
            }
        }
        i = i + 1;
    }
}

/// Allocates every own memory of the module.
fn alloc_module_mems(s: &mut Store, module: &Module)
    requires
        forall|i: int|
            0 <= i < module.mems@.len() ==> module.mems@[i].type_.limits.min as int
                * WASM_PAGE_SIZE as int <= usize::MAX as int,
    ensures
        final(s).mems@.len() == old(s).mems@.len() + module.mems@.len(),
        final(s).mems@.subrange(0, old(s).mems@.len() as int) == old(s).mems@,
        forall|k: int|
            0 <= k < module.mems@.len() ==> {
                &&& #[trigger] final(s).mems@[old(s).mems@.len() + k].data@ == Seq::new(
                    module.mems@[k].type_.limits.min as nat * WASM_PAGE_SIZE as nat,
                    |j: int| 0u8,
                )
                &&& final(s).mems@[old(s).mems@.len() + k].max
                    == module.mems@[k].type_.limits.max
            },
        final(s).funcs@ == old(s).funcs@,
        final(s).tables@ == old(s).tables@,
        final(s).globals@ == old(s).globals@,
        final(s).modules@ == old(s).modules@,
{
    let m0 = s.mems.len();
    let mut i: usize = 0;
    while i < module.mems.len()
        invariant
            i <= module.mems@.len(),
            forall|j: int|
                0 <= j < module.mems@.len() ==> module.mems@[j].type_.limits.min as int
                    * WASM_PAGE_SIZE as int <= usize::MAX as int,
            m0 == old(s).mems@.len(),
            s.mems@.len() == m0 + i,
            s.mems@.subrange(0, m0 as int) == old(s).mems@,
            forall|k: int|
                0 <= k < i ==> {
                    &&& #[trigger] s.mems@[m0 + k].data@ == Seq::new(
                        module.mems@[k].type_.limits.min as nat * WASM_PAGE_SIZE as nat,
                        |j: int| 0u8,
                    )
                    &&& s.mems@[m0 + k].max == module.mems@[k].type_.limits.max
                },
            s.funcs@ == old(s).funcs@,
            s.tables@ == old(s).tables@,
            s.globals@ == old(s).globals@,
            s.modules@ == old(s).modules@,
        decreases module.mems@.len() - i,
    {
        let ghost prev = s.mems@;
        let _a = alloc_mem(s, &module.mems[i].type_);
        proof {
            assert(s.mems@.subrange(0, m0 as int) =~= prev.subrange(0, m0 as int));
            assert forall|k: int| 0 <= k < i implies #[trigger] s.mems@[m0 + k] == prev[m0 + k] by {
                assert(s.mems@.drop_last()[m0 + k] == prev[m0 + k]);
            }
        }
        i = i + 1;
    }
}

/// Allocates every own global of the module, holding the evaluated
/// initializer values.
fn alloc_module_globals(s: &mut Store, module: &Module, vals: &Vec<Val>)
    requires
        vals@.len() == module.globals@.len(),
        forall|i: int|
            0 <= i < vals@.len() ==> vals@[i].ty_spec() == module.globals@[i].type_.valtype,
    ensures
        final(s).globals@ == old(s).globals@ + Seq::new(
            module.globals@.len(),
            |k: int| GlobalInst {
                value: vals@[k],
                mutability: module.globals@[k].type_.mutability,
            },
        ),
        final(s).funcs@ == old(s).funcs@,
        final(s).tables@ == old(s).tables@,
        final(s).mems@ == old(s).mems@,
        final(s).modules@ == old(s).modules@,
{
    let mut i: usize = 0;
    while i < module.globals.len()
        invariant
            i <= module.globals@.len(),
            vals@.len() == module.globals@.len(),
            forall|j: int|
                0 <= j < vals@.len() ==> vals@[j].ty_spec() == module.globals@[j].type_.valtype,
            s.globals@ == old(s).globals@ + Seq::new(
                i as nat,
                |k: int| GlobalInst {
                    value: vals@[k],
                    mutability: module.globals@[k].type_.mutability,
                },
            ),
            s.funcs@ == old(s).funcs@,
            s.tables@ == old(s).tables@,
            s.mems@ == old(s).mems@,
            s.modules@ == old(s).modules@,
        decreases module.globals@.len() - i,
    {
        let _a = alloc_global(s, &module.globals[i].type_, vals[i]);
        proof {
            assert(s.globals@ =~= old(s).globals@ + Seq::new(
                i as nat + 1,
                |k: int| GlobalInst {
                    value: vals@[k],
                    mutability: module.globals@[k].type_.mutability,
                },
            ));
        }
        i = i + 1;
    }
    proof {
        assert(s.globals@ =~= old(s).globals@ + Seq::new(
            module.globals@.len(),
            |k: int| GlobalInst {
                value: vals@[k],
                mutability: module.globals@[k].type_.mutability,
            },
        ));
    }
}

/// Resolves the exports of a module against the instance's address vectors.
fn resolve_exports(
    module: &Module,
    fa: &Vec<FuncAddr>,
    ta: &Vec<TableAddr>,
    ma: &Vec<MemAddr>,
    ga: &Vec<GlobalAddr>,
) -> (r: Vec<ExportInst>)
    requires
        forall|i: int|
            0 <= i < module.exports@.len() ==> spec_export_desc_in_range(
                module.exports@[i].desc,
                fa@.len() as int,
                ta@.len() as int,
                ma@.len() as int,
                ga@.len() as int,
            ),
    ensures
        r@.len() == module.exports@.len(),
        forall|i: int|
            0 <= i < module.exports@.len() ==> {
                &&& #[trigger] r@[i].name@ == module.exports@[i].name@
                &&& r@[i].value == spec_export_value(
                    fa@,
                    ta@,
                    ma@,
                    ga@,
                    module.exports@[i].desc,
                )
            },
{
    let mut out: Vec<ExportInst> = Vec::new();
    let mut i: usize = 0;
    while i < module.exports.len()
        invariant
            i <= module.exports@.len(),
            forall|j: int|
                0 <= j < module.exports@.len() ==> spec_export_desc_in_range(
                    module.exports@[j].desc,
                    fa@.len() as int,
                    ta@.len() as int,
                    ma@.len() as int,
                    ga@.len() as int,
                ),
            out@.len() == i,
            forall|j: int|
                0 <= j < i ==> {
                    &&& #[trigger] out@[j].name@ == module.exports@[j].name@
                    &&& out@[j].value == spec_export_value(
                        fa@,
                        ta@,
                        ma@,
                        ga@,
                        module.exports@[j].desc,
                    )
                },
        decreases module.exports@.len() - i,
    {
        let value = match module.exports[i].desc {
            ExportDesc::Func(x) => ExternVal::Func(fa[x as usize]),
            ExportDesc::Table(x) => ExternVal::Table(ta[x as usize]),
            ExportDesc::Mem(x) => ExternVal::Mem(ma[x as usize]),
            ExportDesc::Global(x) => ExternVal::Global(ga[x as usize]),
        };
        let name = crate::ast::dup_bytes(&module.exports[i].name);
        out.push(ExportInst { name, value });
        i = i + 1;
    }
    out
}

/// Copies a module's type table.
fn dup_types(types: &Vec<FuncType>) -> (r: Vec<FuncType>)
    ensures
        r@.len() == types@.len(),
        forall|i: int| 0 <= i < types@.len() ==> #[trigger] r@[i]@ == types@[i]@,
{
    let mut out: Vec<FuncType> = Vec::new();
    let mut i: usize = 0;
    while i < types.len()
        invariant
            i <= types@.len(),
            out@.len() == i,
            forall|j: int| 0 <= j < i ==> #[trigger] out@[j]@ == types@[j]@,
        decreases types@.len() - i,
    {
        out.push(crate::types::dup_functype(&types[i]));
        i = i + 1;
    }
    out
}

/// Allocates a whole module: every own function (closed over the reserved
/// module address), then own tables, memories and globals (the latter with
/// the supplied initializer values), builds the instance's address vectors
/// by prepending the imported addresses, resolves the exports, and pushes
/// the finished instance. The reserved address — the module pool's length on
/// entry — equals the address the final push assigns.
#[verifier::rlimit(60)]
pub fn alloc_module(
    s: &mut Store,
    module: &Module,
    externvals_im: &Vec<ExternVal>,
    vals: &Vec<Val>,
) -> (moduleaddr: ModuleAddr)
    requires
        forall|i: int|
            0 <= i < module.funcs@.len() ==> (module.funcs@[i].type_ as int)
                < module.types@.len(),
        vals@.len() == module.globals@.len(),
        forall|i: int|
            0 <= i < vals@.len() ==> vals@[i].ty_spec() == module.globals@[i].type_.valtype,
        forall|i: int|
            0 <= i < module.mems@.len() ==> module.mems@[i].type_.limits.min as int
                * WASM_PAGE_SIZE as int <= usize::MAX as int,
        forall|i: int|
            0 <= i < module.exports@.len() ==> spec_export_desc_in_range(
                module.exports@[i].desc,
                spec_resolved_funcaddrs(*old(s), *module, externvals_im@).len() as int,
                spec_resolved_tableaddrs(*old(s), *module, externvals_im@).len() as int,
                spec_resolved_memaddrs(*old(s), *module, externvals_im@).len() as int,
                spec_resolved_globaladdrs(*old(s), *module, externvals_im@).len() as int,
            ),
    ensures
        moduleaddr == old(s).modules@.len(),
        final(s).modules@.len() == old(s).modules@.len() + 1,
        final(s).modules@.drop_last() == old(s).modules@,
        final(s).funcs@.len() == old(s).funcs@.len() + module.funcs@.len(),
        final(s).funcs@.subrange(0, old(s).funcs@.len() as int) == old(s).funcs@,
        forall|k: int|
            0 <= k < module.funcs@.len() ==> (#[trigger] final(s).funcs@[old(s).funcs@.len() + k]
                matches FuncInst::Internal { type_, module: ma, code } && {
                &&& type_@ == module.types@[module.funcs@[k].type_ as int]@
                &&& ma == moduleaddr
                &&& func_equiv(module.funcs@[k], code)
            }),
        final(s).tables@.len() == old(s).tables@.len() + module.tables@.len(),
        final(s).tables@.subrange(0, old(s).tables@.len() as int) == old(s).tables@,
        forall|k: int|
            0 <= k < module.tables@.len() ==> {
                &&& #[trigger] final(s).tables@[old(s).tables@.len() + k].elem@ == Seq::new(
                    module.tables@[k].type_.limits.min as nat,
                    |j: int| FuncElem(None),
                )
                &&& final(s).tables@[old(s).tables@.len() + k].max
                    == module.tables@[k].type_.limits.max
            },
        final(s).mems@.len() == old(s).mems@.len() + module.mems@.len(),
        final(s).mems@.subrange(0, old(s).mems@.len() as int) == old(s).mems@,
        forall|k: int|
            0 <= k < module.mems@.len() ==> {
                &&& #[trigger] final(s).mems@[old(s).mems@.len() + k].data@ == Seq::new(
                    module.mems@[k].type_.limits.min as nat * WASM_PAGE_SIZE as nat,
                    |j: int| 0u8,
                )
                &&& final(s).mems@[old(s).mems@.len() + k].max
                    == module.mems@[k].type_.limits.max
            },
        final(s).globals@ == old(s).globals@ + Seq::new(
            module.globals@.len(),
            |k: int| GlobalInst {
                value: vals@[k],
                mutability: module.globals@[k].type_.mutability,
            },
        ),
        final(s).modules@.last().funcaddrs@ == spec_resolved_funcaddrs(
            *old(s),
            *module,
            externvals_im@,
        ),
        final(s).modules@.last().tableaddrs@ == spec_resolved_tableaddrs(
            *old(s),
            *module,
            externvals_im@,
        ),
        final(s).modules@.last().memaddrs@ == spec_resolved_memaddrs(
            *old(s),
            *module,
            externvals_im@,
        ),
        final(s).modules@.last().globaladdrs@ == spec_resolved_globaladdrs(
            *old(s),
            *module,
            externvals_im@,
        ),
        final(s).modules@.last().types@.len() == module.types@.len(),
        forall|i: int|
            0 <= i < module.types@.len() ==> #[trigger] final(s).modules@.last().types@[i]@
                == module.types@[i]@,
        final(s).modules@.last().exports@.len() == module.exports@.len(),
        forall|i: int|
            0 <= i < module.exports@.len() ==> {
                &&& (#[trigger] final(s).modules@.last().exports@[i]).name@
                    == module.exports@[i].name@
                &&& final(s).modules@.last().exports@[i].value == spec_export_value(
                    spec_resolved_funcaddrs(*old(s), *module, externvals_im@),
                    spec_resolved_tableaddrs(*old(s), *module, externvals_im@),
                    spec_resolved_memaddrs(*old(s), *module, externvals_im@),
                    spec_resolved_globaladdrs(*old(s), *module, externvals_im@),
                    module.exports@[i].desc,
                )
            },
{
    let moduleaddr = s.modules.len();
    let n0 = s.funcs.len();
    let t0 = s.tables.len();
    let m0 = s.mems.len();
    let g0 = s.globals.len();

    alloc_module_funcs(s, module, moduleaddr);
    alloc_module_tables(s, module);
    alloc_module_mems(s, module);
    alloc_module_globals(s, module, vals);

    let nf = s.funcs.len();
    let nt = s.tables.len();
    let nm = s.mems.len();
    let ng = s.globals.len();

    let mut funcaddrs_mod = filter_func_addrs(externvals_im);
    push_fresh_addrs(&mut funcaddrs_mod, n0, module.funcs.len());
    let mut tableaddrs_mod = filter_table_addrs(externvals_im);
    push_fresh_addrs(&mut tableaddrs_mod, t0, module.tables.len());
    let mut memaddrs_mod = filter_mem_addrs(externvals_im);
    push_fresh_addrs(&mut memaddrs_mod, m0, module.mems.len());
    let mut globaladdrs_mod = filter_global_addrs(externvals_im);
    push_fresh_addrs(&mut globaladdrs_mod, g0, module.globals.len());

    proof {
        assert(funcaddrs_mod@ =~= spec_resolved_funcaddrs(*old(s), *module, externvals_im@));
        assert(tableaddrs_mod@ =~= spec_resolved_tableaddrs(*old(s), *module, externvals_im@));
        assert(memaddrs_mod@ =~= spec_resolved_memaddrs(*old(s), *module, externvals_im@));
        assert(globaladdrs_mod@ =~= spec_resolved_globaladdrs(*old(s), *module, externvals_im@));
    }

    let exportinsts = resolve_exports(module, &funcaddrs_mod, &tableaddrs_mod, &memaddrs_mod,
        &globaladdrs_mod);
    let types_copy = dup_types(&module.types);
    let ghost gfa = funcaddrs_mod@;
    let ghost gta = tableaddrs_mod@;
    let ghost gma = memaddrs_mod@;
    let ghost gga = globaladdrs_mod@;
    let ghost gexp = exportinsts@;

    let moduleinst = ModuleInst {
        types: types_copy,
        funcaddrs: funcaddrs_mod,
        tableaddrs: tableaddrs_mod,
        memaddrs: memaddrs_mod,
        globaladdrs: globaladdrs_mod,
        exports: exportinsts,
    };
    s.modules.push(moduleinst);
    proof {
        assert(s.modules@.drop_last() =~= old(s).modules@);
        assert forall|i: int| 0 <= i < module.exports@.len() implies {
            &&& (#[trigger] s.modules@.last().exports@[i]).name@ == module.exports@[i].name@
            &&& s.modules@.last().exports@[i].value == spec_export_value(
                spec_resolved_funcaddrs(*old(s), *module, externvals_im@),
                spec_resolved_tableaddrs(*old(s), *module, externvals_im@),
                spec_resolved_memaddrs(*old(s), *module, externvals_im@),
                spec_resolved_globaladdrs(*old(s), *module, externvals_im@),
                module.exports@[i].desc,
            )
        } by {
            assert(s.modules@.last().exports@ == gexp);
            assert(gexp[i].name@ == module.exports@[i].name@);
            assert(gexp[i].value == spec_export_value(gfa, gta, gma, gga,
                module.exports@[i].desc));
        }
    }
    moduleaddr
}

} // verus!

//! The store and its instances: flat, append-only pools of function, table,
//! memory, global and module instances, addressed by dense indices.

use vstd::prelude::*;
use crate::types::{FuncType, Mut, Val};
use crate::ast::Func;

verus! {

/// Bytes per page of linear memory.
pub const WASM_PAGE_SIZE: usize = 65536;

/// Greatest number of entries an entity collection may hold.
pub const WEC_MAX_SIZE: usize = 0xFFFF_FFFF;

/// Address of a function instance in the store.
pub type FuncAddr = usize;
/// Address of a table instance in the store.
pub type TableAddr = usize;
/// Address of a memory instance in the store.
pub type MemAddr = usize;
/// Address of a global instance in the store.
pub type GlobalAddr = usize;
/// Address of a module instance in the store.
pub type ModuleAddr = usize;

/// Opaque handle to a host-provided callable; the interpreter resolves it.
#[derive(Clone, Copy, Debug, PartialEq, Eq, Structural)]
pub struct HostFunc {
    pub id: usize,
}

/// A function instance: an internal function closed over its owning module
/// instance (by address, closing the module/function cycle), or a host
/// function.
#[derive(Debug)]
pub enum FuncInst {
    Internal { type_: FuncType, module: ModuleAddr, code: Func },
    Host { type_: FuncType, hostcode: HostFunc },
}

impl FuncInst {
    /// The declared type of either kind of function instance.
    pub open spec fn type_spec(self) -> FuncType {
        match self {
            FuncInst::Internal { type_, .. } => type_,
            FuncInst::Host { type_, .. } => type_,
        }
    }

    /// Projects the declared function type.
    pub fn type_(&self) -> (r: &FuncType)
        ensures
            *r == self.type_spec(),
    {
        match self {
            FuncInst::Internal { type_, .. } => type_,
            FuncInst::Host { type_, .. } => type_,
        }
    }
}

/// One table slot: a function address or empty.
#[derive(Clone, Copy, Debug, PartialEq, Eq, Structural)]
pub struct FuncElem(pub Option<FuncAddr>);

/// A table instance: element vector and optional maximum element count.
#[derive(Debug)]
pub struct TableInst {
    pub elem: Vec<FuncElem>,
    pub max: Option<u32>,
}

/// A memory instance: raw bytes (always a whole number of pages) and an
/// optional maximum page count.
#[derive(Debug)]
pub struct MemInst {
    pub data: Vec<u8>,
    pub max: Option<u32>,
}

/// A global instance: current value and mutability.
#[derive(Clone, Copy, Debug, PartialEq, Eq, Structural)]
pub struct GlobalInst {
    pub value: Val,
    pub mutability: Mut,
}

/// A resolved export: name bytes and the external value it denotes.
#[derive(Debug)]
pub struct ExportInst {
    pub name: Vec<u8>,
    pub value: ExternVal,
}

/// An external value: a store address tagged with its kind.
#[derive(Clone, Copy, Debug, PartialEq, Eq, Structural)]
pub enum ExternVal {
    Func(FuncAddr),
    Table(TableAddr),
    Mem(MemAddr),
    Global(GlobalAddr),
}

/// A module instance: the type table plus address vectors into the store, in
/// declaration order with imported addresses first, and the resolved exports.
#[derive(Debug)]
pub struct ModuleInst {
    pub types: Vec<FuncType>,
    pub funcaddrs: Vec<FuncAddr>,
    pub tableaddrs: Vec<TableAddr>,
    pub memaddrs: Vec<MemAddr>,
    pub globaladdrs: Vec<GlobalAddr>,
    pub exports: Vec<ExportInst>,
}

/// The store: the single authoritative container of all live instances.
/// All pools are append-only; the one exception is `pop_aux` on the module
/// pool.
#[derive(Debug)]
pub struct Store {
    pub funcs: Vec<FuncInst>,
    pub tables: Vec<TableInst>,
    pub mems: Vec<MemInst>,
    pub globals: Vec<GlobalInst>,
    pub modules: Vec<ModuleInst>,
}

/// Creates an empty store.
pub fn new_store() -> (r: Store)
    ensures
        r.funcs@ =~= Seq::<FuncInst>::empty(),
        r.tables@ =~= Seq::<TableInst>::empty(),
        r.mems@ =~= Seq::<MemInst>::empty(),
        r.globals@ =~= Seq::<GlobalInst>::empty(),
        r.modules@ =~= Seq::<ModuleInst>::empty(),
{
    Store {
        funcs: Vec::new(),
        tables: Vec::new(),
        mems: Vec::new(),
        globals: Vec::new(),
        modules: Vec::new(),
    }
}

impl Store {
    /// Removes exactly the most recently pushed module instance; this exists
    /// solely to unwind the auxiliary instance used during global
    /// initialization.
    pub fn pop_aux(&mut self)
        requires
            old(self).modules@.len() > 0,
        ensures
            final(self).modules@ == old(self).modules@.drop_last(),
            final(self).funcs@ == old(self).funcs@,
            final(self).tables@ == old(self).tables@,
            final(self).mems@ == old(self).mems@,
            final(self).globals@ == old(self).globals@,
    {
        self.modules.pop();
    }
}

} // verus!

//! Value, result, function, table, memory, global and extern types, plus
//! runtime values. Floating-point values are carried as their raw bit
//! patterns; the core never performs float arithmetic.

use vstd::prelude::*;

verus! {

/// The four WebAssembly value types.
#[derive(Clone, Copy, Debug, PartialEq, Eq, Structural)]
pub enum ValType {
    I32,
    I64,
    F32,
    F64,
}

/// The two integer value types, used by instructions that exist only for
/// integers.
#[derive(Clone, Copy, Debug, PartialEq, Eq, Structural)]
pub enum IntType {
    I32,
    I64,
}

/// The two floating-point value types.
#[derive(Clone, Copy, Debug, PartialEq, Eq, Structural)]
pub enum FloatType {
    F32,
    F64,
}

/// Signedness annotation of a conversion or partial-width access.
#[derive(Clone, Copy, Debug, PartialEq, Eq, Structural)]
pub enum Sx {
    U,
    S,
}

/// Mutability of a global.
#[derive(Clone, Copy, Debug, PartialEq, Eq, Structural)]
pub enum Mut {
    Const,
    Var,
}

/// Element type of a table; the MVP has exactly one.
#[derive(Clone, Copy, Debug, PartialEq, Eq, Structural)]
pub enum ElemType {
    AnyFunc,
}

/// An optional single value type; the MVP restricts result types to
/// length zero or one.
pub type ResultType = Option<ValType>;

/// Size bounds of a table or memory.
#[derive(Clone, Copy, Debug, PartialEq, Eq, Structural)]
pub struct Limits {
    pub min: u32,
    pub max: Option<u32>,
}

/// A function type: argument types and result types.
#[derive(Debug)]
pub struct FuncType {
    pub args: Vec<ValType>,
    pub results: Vec<ValType>,
}

/// Mathematical image of a `FuncType`.
pub struct FuncTypeV {
    pub args: Seq<ValType>,
    pub results: Seq<ValType>,
}

impl View for FuncType {
    type V = FuncTypeV;

    open spec fn view(&self) -> FuncTypeV {
        FuncTypeV { args: self.args@, results: self.results@ }
    }
}

/// A table type: limits plus the (unique) element type.
#[derive(Clone, Copy, Debug, PartialEq, Eq, Structural)]
pub struct TableType {
    pub limits: Limits,
    pub elemtype: ElemType,
}

/// A memory type: limits counted in pages.
#[derive(Clone, Copy, Debug, PartialEq, Eq, Structural)]
pub struct MemType {
    pub limits: Limits,
}

/// A global type: mutability plus value type.
#[derive(Clone, Copy, Debug, PartialEq, Eq, Structural)]
pub struct GlobalType {
    pub mutability: Mut,
    pub valtype: ValType,
}

/// A runtime value. Floats are raw IEEE 754 bit patterns.
#[derive(Clone, Copy, Debug, PartialEq, Eq, Structural)]
pub enum Val {
    I32(u32),
    I64(u64),
    F32(u32),
    F64(u64),
}

impl Val {
    /// The value type a runtime value belongs to.
    pub open spec fn ty_spec(self) -> ValType {
        match self {
            Val::I32(_) => ValType::I32,
            Val::I64(_) => ValType::I64,
            Val::F32(_) => ValType::F32,
            Val::F64(_) => ValType::F64,
        }
    }

    /// Projects the value type of a runtime value.
    pub fn ty(&self) -> (r: ValType)
        ensures
            r == self.ty_spec(),
    {
        match self {
            Val::I32(_) => ValType::I32,
            Val::I64(_) => ValType::I64,
            Val::F32(_) => ValType::F32,
            Val::F64(_) => ValType::F64,
        }
    }
}

impl IntType {
    /// The value type of this integer type.
    pub open spec fn ty_spec(self) -> ValType {
        match self {
            IntType::I32 => ValType::I32,
            IntType::I64 => ValType::I64,
        }
    }

    /// Widens the integer type to a value type.
    pub fn ty(&self) -> (r: ValType)
        ensures
            r == self.ty_spec(),
    {
        match self {
            IntType::I32 => ValType::I32,
            IntType::I64 => ValType::I64,
        }
    }
}

impl FloatType {
    /// The value type of this floating-point type.
    pub open spec fn ty_spec(self) -> ValType {
        match self {
            FloatType::F32 => ValType::F32,
            FloatType::F64 => ValType::F64,
        }
    }

    /// Widens the floating-point type to a value type.
    pub fn ty(&self) -> (r: ValType)
        ensures
            r == self.ty_spec(),
    {
        match self {
            FloatType::F32 => ValType::F32,
            FloatType::F64 => ValType::F64,
        }
    }
}

impl ValType {
    /// Bit width of a value of this type.
    pub open spec fn bit_width_spec(self) -> u32 {
        match self {
            ValType::I32 => 32,
            ValType::I64 => 64,
            ValType::F32 => 32,
            ValType::F64 => 64,
        }
    }

    /// Returns the bit width of a value of this type.
    pub fn bit_width(&self) -> (r: u32)
        ensures
            r == self.bit_width_spec(),
    {
        match self {
            ValType::I32 => 32,
            ValType::I64 => 64,
            ValType::F32 => 32,
            ValType::F64 => 64,
        }
    }

    /// The source type of a reinterpretation targeting this type: the
    /// same-width type of the other class.
    pub open spec fn reinterpret_from_spec(self) -> ValType {
        match self {
            ValType::I32 => ValType::F32,
            ValType::I64 => ValType::F64,
            ValType::F32 => ValType::I32,
            ValType::F64 => ValType::I64,
        }
    }

    /// Returns the source type of a reinterpretation targeting this type.
    pub fn reinterpret_from(&self) -> (r: ValType)
        ensures
            r == self.reinterpret_from_spec(),
    {
        match self {
            ValType::I32 => ValType::F32,
            ValType::I64 => ValType::F64,
            ValType::F32 => ValType::I32,
            ValType::F64 => ValType::I64,
        }
    }
}

/// The four-variant sum of types an import or export can carry.
#[derive(Debug)]
pub enum ExternType {
    Func(FuncType),
    Table(TableType),
    Mem(MemType),
    Global(GlobalType),
}

/// Mathematical image of an `ExternType`.
pub enum ExternTypeV {
    Func(FuncTypeV),
    Table(TableType),
    Mem(MemType),
    Global(GlobalType),
}

impl View for ExternType {
    type V = ExternTypeV;

    open spec fn view(&self) -> ExternTypeV {
        match self {
            ExternType::Func(ft) => ExternTypeV::Func(ft@),
            ExternType::Table(tt) => ExternTypeV::Table(*tt),
            ExternType::Mem(mt) => ExternTypeV::Mem(*mt),
            ExternType::Global(gt) => ExternTypeV::Global(*gt),
        }
    }
}

/// Copies a vector of value types.
pub fn dup_valtypes(v: &Vec<ValType>) -> (r: Vec<ValType>)
    ensures
        r@ == v@,
{
    let mut out: Vec<ValType> = Vec::new();
    let mut i: usize = 0;
    while i < v.len()
        invariant
            i <= v.len(),
            out@ == v@.subrange(0, i as int),
        decreases v.len() - i,
    {
        out.push(v[i]);
        i = i + 1;
    }
    proof {
        assert(out@ == v@);
    }
    out
}

/// Copies a function type.
pub fn dup_functype(ft: &FuncType) -> (r: FuncType)
    ensures
        r@ == ft@,
{
    FuncType { args: dup_valtypes(&ft.args), results: dup_valtypes(&ft.results) }
}

} // verus!

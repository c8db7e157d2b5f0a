//! The passive module AST the validator consumes: instructions, expressions,
//! and the module with its entity sections. Instructions are grouped by the
//! value types they operate on, which is all validation needs.

use vstd::prelude::*;
use crate::types::{ValType, IntType, FloatType, Sx, ResultType, TableType, MemType, GlobalType,
    FuncType, Val};

verus! {

/// Alignment and offset immediate of a memory access.
#[derive(Clone, Copy, Debug, PartialEq, Eq, Structural)]
pub struct Memarg {
    pub align: u32,
    pub offset: u32,
}

/// One instruction, abstracted over the concrete operation where only the
/// operand types matter to validation.
#[derive(Debug)]
pub enum Instr {
    // numeric instructions
    TConst(Val),
    TUnop(ValType),
    TBinop(ValType),
    IxxTestop(IntType),
    TRelop(ValType),
    // conversions
    TReinterpret(ValType),
    IxxTruncFxx(IntType, Sx, FloatType),
    I32WrapI64,
    I64ExtendI32(Sx),
    FxxConvertUxx(FloatType, Sx, IntType),
    F32DemoteF64,
    F64PromoteF32,
    // parametric instructions
    Drop,
    Select,
    // variable instructions
    GetLocal(u32),
    SetLocal(u32),
    TeeLocal(u32),
    GetGlobal(u32),
    SetGlobal(u32),
    // memory instructions
    TLoad(ValType, Memarg),
    IxxLoad8(IntType, Sx, Memarg),
    IxxLoad16(IntType, Sx, Memarg),
    I64Load32(Sx, Memarg),
    TStore(ValType, Memarg),
    IxxStore8(IntType, Memarg),
    IxxStore16(IntType, Memarg),
    I64Store32(Memarg),
    CurrentMemory,
    GrowMemory,
    // control instructions
    Nop,
    Unreachable,
    Block(ResultType, Vec<Instr>),
    Loop(ResultType, Vec<Instr>),
    IfElse(ResultType, Vec<Instr>, Vec<Instr>),
    Br(u32),
    BrIf(u32),
    BrTable(Vec<u32>, u32),
    Return,
    Call(u32),
    CallIndirect(u32),
}

/// An expression: a plain instruction sequence.
#[derive(Debug)]
pub struct Expr {
    pub body: Vec<Instr>,
}

/// A function definition: index into the module's type table, extra locals,
/// and the body expression.
#[derive(Debug)]
pub struct Func {
    pub type_: u32,
    pub locals: Vec<ValType>,
    pub body: Expr,
}

/// A table definition.
#[derive(Clone, Copy, Debug, PartialEq, Eq, Structural)]
pub struct Table {
    pub type_: TableType,
}

/// A memory definition.
#[derive(Clone, Copy, Debug, PartialEq, Eq, Structural)]
pub struct Mem {
    pub type_: MemType,
}

/// A global definition: its type and the constant initializer expression.
#[derive(Debug)]
pub struct Global {
    pub type_: GlobalType,
    pub init: Expr,
}

/// An element segment: target table, offset expression, function indices.
#[derive(Debug)]
pub struct Elem {
    pub table: u32,
    pub offset: Expr,
    pub init: Vec<u32>,
}

/// A data segment: target memory, offset expression, raw bytes.
#[derive(Debug)]
pub struct Data {
    pub data: u32,
    pub offset: Expr,
    pub init: Vec<u8>,
}

/// The start function reference.
#[derive(Clone, Copy, Debug, PartialEq, Eq, Structural)]
pub struct Start {
    pub func: u32,
}

/// What an import provides: a function (by type index) or a full
/// table/memory/global type.
#[derive(Debug)]
pub enum ImportDesc {
    Func(u32),
    Table(TableType),
    Mem(MemType),
    Global(GlobalType),
}

/// One import: module name, field name (UTF-8 bytes), and description.
#[derive(Debug)]
pub struct Import {
    pub module: Vec<u8>,
    pub name: Vec<u8>,
    pub desc: ImportDesc,
}

/// What an export refers to, by index into the instance's address vectors.
#[derive(Clone, Copy, Debug, PartialEq, Eq, Structural)]
pub enum ExportDesc {
    Func(u32),
    Table(u32),
    Mem(u32),
    Global(u32),
}

/// One export: field name (UTF-8 bytes) and description.
#[derive(Debug)]
pub struct Export {
    pub name: Vec<u8>,
    pub desc: ExportDesc,
}

/// Structural equality of two instructions, recursing into block bodies.
pub open spec fn instr_equiv(a: Instr, b: Instr) -> bool
    decreases a,
{
    match (a, b) {
        (Instr::TConst(x), Instr::TConst(y)) => x == y,
        (Instr::TUnop(x), Instr::TUnop(y)) => x == y,
        (Instr::TBinop(x), Instr::TBinop(y)) => x == y,
        (Instr::IxxTestop(x), Instr::IxxTestop(y)) => x == y,
        (Instr::TRelop(x), Instr::TRelop(y)) => x == y,
        (Instr::TReinterpret(x), Instr::TReinterpret(y)) => x == y,
        (Instr::IxxTruncFxx(x1, x2, x3), Instr::IxxTruncFxx(y1, y2, y3)) => {
            x1 == y1 && x2 == y2 && x3 == y3
        },
        (Instr::I32WrapI64, Instr::I32WrapI64) => true,
        (Instr::I64ExtendI32(x), Instr::I64ExtendI32(y)) => x == y,
        (Instr::FxxConvertUxx(x1, x2, x3), Instr::FxxConvertUxx(y1, y2, y3)) => {
            x1 == y1 && x2 == y2 && x3 == y3
        },
        (Instr::F32DemoteF64, Instr::F32DemoteF64) => true,
        (Instr::F64PromoteF32, Instr::F64PromoteF32) => true,
        (Instr::Drop, Instr::Drop) => true,
        (Instr::Select, Instr::Select) => true,
        (Instr::GetLocal(x), Instr::GetLocal(y)) => x == y,
        (Instr::SetLocal(x), Instr::SetLocal(y)) => x == y,
        (Instr::TeeLocal(x), Instr::TeeLocal(y)) => x == y,
        (Instr::GetGlobal(x), Instr::GetGlobal(y)) => x == y,
        (Instr::SetGlobal(x), Instr::SetGlobal(y)) => x == y,
        (Instr::TLoad(x1, x2), Instr::TLoad(y1, y2)) => x1 == y1 && x2 == y2,
        (Instr::IxxLoad8(x1, x2, x3), Instr::IxxLoad8(y1, y2, y3)) => {
            x1 == y1 && x2 == y2 && x3 == y3
        },
        (Instr::IxxLoad16(x1, x2, x3), Instr::IxxLoad16(y1, y2, y3)) => {
            x1 == y1 && x2 == y2 && x3 == y3
        },
        (Instr::I64Load32(x1, x2), Instr::I64Load32(y1, y2)) => x1 == y1 && x2 == y2,
        (Instr::TStore(x1, x2), Instr::TStore(y1, y2)) => x1 == y1 && x2 == y2,
        (Instr::IxxStore8(x1, x2), Instr::IxxStore8(y1, y2)) => x1 == y1 && x2 == y2,
        (Instr::IxxStore16(x1, x2), Instr::IxxStore16(y1, y2)) => x1 == y1 && x2 == y2,
        (Instr::I64Store32(x), Instr::I64Store32(y)) => x == y,
        (Instr::CurrentMemory, Instr::CurrentMemory) => true,
        (Instr::GrowMemory, Instr::GrowMemory) => true,
        (Instr::Nop, Instr::Nop) => true,
        (Instr::Unreachable, Instr::Unreachable) => true,
        (Instr::Block(rt1, b1), Instr::Block(rt2, b2)) => rt1 == rt2 && instrs_equiv(b1@, b2@),
        (Instr::Loop(rt1, b1), Instr::Loop(rt2, b2)) => rt1 == rt2 && instrs_equiv(b1@, b2@),
        (Instr::IfElse(rt1, t1, e1), Instr::IfElse(rt2, t2, e2)) => {
            rt1 == rt2 && instrs_equiv(t1@, t2@) && instrs_equiv(e1@, e2@)
        },
        (Instr::Br(x), Instr::Br(y)) => x == y,
        (Instr::BrIf(x), Instr::BrIf(y)) => x == y,
        (Instr::BrTable(ls1, n1), Instr::BrTable(ls2, n2)) => ls1@ == ls2@ && n1 == n2,
        (Instr::Return, Instr::Return) => true,
        (Instr::Call(x), Instr::Call(y)) => x == y,
        (Instr::CallIndirect(x), Instr::CallIndirect(y)) => x == y,
        _ => false,
    }
}

/// Structural equality of two instruction sequences, element by element.
pub open spec fn instrs_equiv(a: Seq<Instr>, b: Seq<Instr>) -> bool
    decreases a,
{
    &&& a.len() == b.len()
    &&& a.len() > 0 ==> {
        &&& instrs_equiv(a.drop_last(), b.drop_last())
        &&& instr_equiv(a.last(), b.last())
    }
}

/// Structural equality of two function definitions.
pub open spec fn func_equiv(a: Func, b: Func) -> bool {
    &&& a.type_ == b.type_
    &&& a.locals@ == b.locals@
    &&& instrs_equiv(a.body.body@, b.body.body@)
}

/// Copies a vector of label indices.
pub fn dup_u32s(v: &Vec<u32>) -> (r: Vec<u32>)
    ensures
        r@ == v@,
{
    let mut out: Vec<u32> = Vec::new();
    let mut i: usize = 0;
    while i < v.len()
        invariant
            i <= v.len(),
            out@ == v@.subrange(0, i as int),
        decreases v.len() - i,
    {
        out.push(v[i]);
        i = i + 1;
    }
    proof {
        assert(out@ == v@);
    }
    out
}

/// Copies a name given as raw bytes.
pub fn dup_bytes(v: &Vec<u8>) -> (r: Vec<u8>)
    ensures
        r@ == v@,
{
    let mut out: Vec<u8> = Vec::new();
    let mut i: usize = 0;
    while i < v.len()
        invariant
            i <= v.len(),
            out@ == v@.subrange(0, i as int),
        decreases v.len() - i,
    {
        out.push(v[i]);
        i = i + 1;
    }
    proof {
        assert(out@ == v@);
    }
    out
}

/// Copies one instruction, recursing into block bodies.
pub fn dup_instr(i: &Instr) -> (r: Instr)
    ensures
        instr_equiv(*i, r),
    decreases *i,
{
    match i {
        Instr::TConst(x) => Instr::TConst(*x),
        Instr::TUnop(x) => Instr::TUnop(*x),
        Instr::TBinop(x) => Instr::TBinop(*x),
        Instr::IxxTestop(x) => Instr::IxxTestop(*x),
        Instr::TRelop(x) => Instr::TRelop(*x),
        Instr::TReinterpret(x) => Instr::TReinterpret(*x),
        Instr::IxxTruncFxx(x1, x2, x3) => Instr::IxxTruncFxx(*x1, *x2, *x3),
        Instr::I32WrapI64 => Instr::I32WrapI64,
        Instr::I64ExtendI32(x) => Instr::I64ExtendI32(*x),
        Instr::FxxConvertUxx(x1, x2, x3) => Instr::FxxConvertUxx(*x1, *x2, *x3),
        Instr::F32DemoteF64 => Instr::F32DemoteF64,
        Instr::F64PromoteF32 => Instr::F64PromoteF32,
        Instr::Drop => Instr::Drop,
        Instr::Select => Instr::Select,
        Instr::GetLocal(x) => Instr::GetLocal(*x),
        Instr::SetLocal(x) => Instr::SetLocal(*x),
        Instr::TeeLocal(x) => Instr::TeeLocal(*x),
        Instr::GetGlobal(x) => Instr::GetGlobal(*x),
        Instr::SetGlobal(x) => Instr::SetGlobal(*x),
        Instr::TLoad(x1, x2) => Instr::TLoad(*x1, *x2),
        Instr::IxxLoad8(x1, x2, x3) => Instr::IxxLoad8(*x1, *x2, *x3),
        Instr::IxxLoad16(x1, x2, x3) => Instr::IxxLoad16(*x1, *x2, *x3),
        Instr::I64Load32(x1, x2) => Instr::I64Load32(*x1, *x2),
        Instr::TStore(x1, x2) => Instr::TStore(*x1, *x2),
        Instr::IxxStore8(x1, x2) => Instr::IxxStore8(*x1, *x2),
        Instr::IxxStore16(x1, x2) => Instr::IxxStore16(*x1, *x2),
        Instr::I64Store32(x) => Instr::I64Store32(*x),
        Instr::CurrentMemory => Instr::CurrentMemory,
        Instr::GrowMemory => Instr::GrowMemory,
        Instr::Nop => Instr::Nop,
        Instr::Unreachable => Instr::Unreachable,
        Instr::Block(rt, b) => Instr::Block(*rt, dup_instrs(b)),
        Instr::Loop(rt, b) => Instr::Loop(*rt, dup_instrs(b)),
        Instr::IfElse(rt, t, e) => Instr::IfElse(*rt, dup_instrs(t), dup_instrs(e)),
        Instr::Br(x) => Instr::Br(*x),
        Instr::BrIf(x) => Instr::BrIf(*x),
        Instr::BrTable(ls, n) => Instr::BrTable(dup_u32s(ls), *n),
        Instr::Return => Instr::Return,
        Instr::Call(x) => Instr::Call(*x),
        Instr::CallIndirect(x) => Instr::CallIndirect(*x),
    }
}

/// Copies an instruction sequence, recursing into block bodies.
pub fn dup_instrs(v: &Vec<Instr>) -> (r: Vec<Instr>)
    ensures
        instrs_equiv(v@, r@),
    decreases v@,
{
    let mut out: Vec<Instr> = Vec::new();
    let mut i: usize = 0;
    while i < v.len()
        invariant
            i <= v.len(),
            instrs_equiv(v@.subrange(0, i as int), out@),
        decreases v.len() - i,
    {
        proof {
            assert(decreases_to!(v@ => v@[i as int]));
        }
        let d = dup_instr(&v[i]);
        let ghost prev = out@;
        out.push(d);
        proof {
            assert(v@.subrange(0, i as int + 1).drop_last() =~= v@.subrange(0, i as int));
            assert(v@.subrange(0, i as int + 1).last() == v@[i as int]);
            assert(out@.drop_last() =~= prev);
            assert(out@.last() == d);
        }
        i = i + 1;
    }
    proof {
        assert(v@.subrange(0, v@.len() as int) =~= v@);
    }
    out
}

/// Copies an expression.
pub fn dup_expr(e: &Expr) -> (r: Expr)
    ensures
        instrs_equiv(e.body@, r.body@),
{
    Expr { body: dup_instrs(&e.body) }
}

/// Copies a function definition.
pub fn dup_func(f: &Func) -> (r: Func)
    ensures
        func_equiv(*f, r),
{
    Func {
        type_: f.type_,
        locals: crate::types::dup_valtypes(&f.locals),
        body: dup_expr(&f.body),
    }
}

/// A decoded module.
#[derive(Debug)]
pub struct Module {
    pub types: Vec<FuncType>,
    pub funcs: Vec<Func>,
    pub tables: Vec<Table>,
    pub mems: Vec<Mem>,
    pub globals: Vec<Global>,
    pub elem: Vec<Elem>,
    pub data: Vec<Data>,
    pub start: Option<Start>,
    pub imports: Vec<Import>,
    pub exports: Vec<Export>,
}

} // verus!

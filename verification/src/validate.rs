//! Context-threaded typing of limits, function/table/memory/global types,
//! instructions, instruction sequences, expressions, constant expressions
//! and functions. Each checker's result equals a mathematical mirror
//! function of the context and the checked value alone, so validation is
//! deterministic by contract.

use vstd::prelude::*;
use crate::types::{ValType, FuncType, FuncTypeV, TableType, MemType, GlobalType, Limits, Mut,
    ElemType, ResultType};
use crate::ast::{Instr, Expr, Func, Memarg, Module, Import, ImportDesc, ExportDesc};
use crate::validation::{Ctx, CtxV, VResult, ValidationError, ValidationErrorEnum, AnyValType,
    AnyFuncType, AnyFuncTypeV, AnyFuncTypeOne, AnyResultType, any, any_seq, any_opt,
    any_from_valtype, valtype_to_any, spec_resulttype_anyvec, resulttype_to_anyvec,
    spec_ctx_locals, spec_ctx_globals, spec_ctx_mems, spec_ctx_tables, spec_ctx_labels,
    spec_ctx_return, spec_ctx_funcs, spec_ctx_types, spec_consume, spec_apply_sub,
    spec_is_valid_with, spec_any_vec_to_option, consume_rec, apply_sub};

verus! {

/// Limits are valid iff the upper bound, where present, is at least the
/// lower one.
pub open spec fn spec_limits_valid(l: Limits) -> bool {
    match l.max {
        Some(m) => m >= l.min,
        None => true,
    }
}

/// A function type is valid iff it has at most one result.
pub open spec fn spec_functype_valid(ft: FuncTypeV) -> bool {
    ft.results.len() <= 1
}

/// Whether a memory access's alignment immediate exceeds the access width.
pub open spec fn spec_overaligned(align: u32, bit_width: u32) -> bool {
    align >= 6 || (1u32 << align) > bit_width / 8
}

/// The extended types of a row of value types.
pub open spec fn spec_valtypes_any(s: Seq<ValType>) -> Seq<AnyValType> {
    s.map_values(|v: ValType| any_from_valtype(v))
}

/// Widens a row of value types into the extended algebra.
pub fn valtypes_to_anyvec(v: &Vec<ValType>) -> (r: Vec<AnyValType>)
    ensures
        r@ == spec_valtypes_any(v@),
{
    let mut out: Vec<AnyValType> = Vec::new();
    let mut i: usize = 0;
    while i < v.len()
        invariant
            i <= v@.len(),
            out@ == spec_valtypes_any(v@.subrange(0, i as int)),
        decreases v@.len() - i,
    {
        out.push(valtype_to_any(v[i]));
        proof {
            assert(out@ =~= spec_valtypes_any(v@.subrange(0, i as int + 1)));
        }
        i = i + 1;
    }
    proof {
        assert(v@.subrange(0, v@.len() as int) =~= v@);
    }
    out
}

/// Shorthand for an extended instruction type.
pub open spec fn fty(args: Seq<AnyValType>, results: Seq<AnyValType>) -> AnyFuncTypeV {
    AnyFuncTypeV { args, results }
}

/// The extended type a function type gives an instruction.
pub open spec fn anyfty_of(ft: FuncTypeV) -> AnyFuncTypeV {
    fty(spec_valtypes_any(ft.args), spec_valtypes_any(ft.results))
}

/// The type of a memory access instruction: validity of the alignment given
/// the access width, under a context that must have a memory.
pub open spec fn spec_loadstore_ty(
    c: CtxV,
    t: ValType,
    memarg: Memarg,
    bit_width: u32,
    is_load: bool,
) -> Result<AnyFuncTypeV, ValidationError> {
    match spec_ctx_mems(c, 0) {
        Err(e) => Err(e),
        Ok(_) => {
            if spec_overaligned(memarg.align, bit_width) {
                if is_load {
                    Err(ValidationError { kind: ValidationErrorEnum::InstrLoadOveraligned })
                } else {
                    Err(ValidationError { kind: ValidationErrorEnum::InstrStoreOveraligned })
                }
            } else {
                if is_load {
                    Ok(fty(seq![AnyValType::I32], seq![any_from_valtype(t)]))
                } else {
                    Ok(fty(seq![AnyValType::I32, any_from_valtype(t)], Seq::empty()))
                }
            }
        },
    }
}

/// All labels of a branch table carry the same result type.
pub open spec fn spec_check_br_labels(c: CtxV, ls: Seq<u32>, rt: ResultType) -> VResult<()>
    decreases ls.len(),
{
    if ls.len() == 0 {
        Ok(())
    } else {
        match spec_ctx_labels(c, ls.first()) {
            Err(e) => Err(e),
            Ok(rti) => {
                if rti != rt {
                    Err(ValidationError { kind: ValidationErrorEnum::InstrBrTableNotSameLabelType })
                } else {
                    spec_check_br_labels(c, ls.drop_first(), rt)
                }
            },
        }
    }
}

/// The type of one instruction under a context: the typing rules table.
pub open spec fn spec_instr_ty(c: CtxV, i: Instr) -> Result<AnyFuncTypeV, ValidationError>
    decreases i,
{
    match i {
        Instr::TConst(x) => Ok(fty(Seq::empty(), seq![any_from_valtype(x.ty_spec())])),
        Instr::TUnop(t) => Ok(
            fty(seq![any_from_valtype(t)], seq![any_from_valtype(t)]),
        ),
        Instr::TBinop(t) => Ok(
            fty(seq![any_from_valtype(t), any_from_valtype(t)], seq![any_from_valtype(t)]),
        ),
        Instr::IxxTestop(it) => Ok(
            fty(seq![any_from_valtype(it.ty_spec())], seq![AnyValType::I32]),
        ),
        Instr::TRelop(t) => Ok(
            fty(seq![any_from_valtype(t), any_from_valtype(t)], seq![any_from_valtype(t)]),
        ),
        Instr::TReinterpret(t) => Ok(
            fty(seq![any_from_valtype(t.reinterpret_from_spec())], seq![any_from_valtype(t)]),
        ),
        Instr::IxxTruncFxx(t2, _, t1) => Ok(
            fty(seq![any_from_valtype(t1.ty_spec())], seq![any_from_valtype(t2.ty_spec())]),
        ),
        Instr::I32WrapI64 => Ok(fty(seq![AnyValType::I64], seq![AnyValType::I32])),
        Instr::I64ExtendI32(_) => Ok(fty(seq![AnyValType::I32], seq![AnyValType::I64])),
        Instr::FxxConvertUxx(t2, _, t1) => Ok(
            fty(seq![any_from_valtype(t1.ty_spec())], seq![any_from_valtype(t2.ty_spec())]),
        ),
        Instr::F32DemoteF64 => Ok(fty(seq![AnyValType::F64], seq![AnyValType::F32])),
        Instr::F64PromoteF32 => Ok(fty(seq![AnyValType::F32], seq![AnyValType::F64])),
        Instr::Drop => Ok(fty(seq![AnyValType::Any('t')], Seq::empty())),
        Instr::Select => Ok(
            fty(
                seq![AnyValType::Any('t'), AnyValType::Any('t'), AnyValType::I32],
                seq![AnyValType::Any('t')],
            ),
        ),
        Instr::GetLocal(x) => match spec_ctx_locals(c, x) {
            Err(e) => Err(e),
            Ok(t) => Ok(fty(Seq::empty(), seq![any_from_valtype(t)])),
        },
        Instr::SetLocal(x) => match spec_ctx_locals(c, x) {
            Err(e) => Err(e),
            Ok(t) => Ok(fty(seq![any_from_valtype(t)], Seq::empty())),
        },
        Instr::TeeLocal(x) => match spec_ctx_locals(c, x) {
            Err(e) => Err(e),
            Ok(t) => Ok(fty(seq![any_from_valtype(t)], seq![any_from_valtype(t)])),
        },
        Instr::GetGlobal(x) => match spec_ctx_globals(c, x) {
            Err(e) => Err(e),
            Ok(gt) => Ok(fty(Seq::empty(), seq![any_from_valtype(gt.valtype)])),
        },
        Instr::SetGlobal(x) => match spec_ctx_globals(c, x) {
            Err(e) => Err(e),
            Ok(gt) => {
                if gt.mutability != Mut::Var {
                    Err(ValidationError { kind: ValidationErrorEnum::InstrSetGlobalNotVar })
                } else {
                    Ok(fty(seq![any_from_valtype(gt.valtype)], Seq::empty()))
                }
            },
        },
        Instr::TLoad(t, memarg) => spec_loadstore_ty(c, t, memarg, t.bit_width_spec(), true),
        Instr::IxxLoad8(it, _, memarg) => spec_loadstore_ty(c, it.ty_spec(), memarg, 8, true),
        Instr::IxxLoad16(it, _, memarg) => spec_loadstore_ty(c, it.ty_spec(), memarg, 16, true),
        Instr::I64Load32(_, memarg) => spec_loadstore_ty(c, ValType::I64, memarg, 32, true),
        Instr::TStore(t, memarg) => spec_loadstore_ty(c, t, memarg, t.bit_width_spec(), false),
        Instr::IxxStore8(it, memarg) => spec_loadstore_ty(c, it.ty_spec(), memarg, 8, false),
        Instr::IxxStore16(it, memarg) => spec_loadstore_ty(c, it.ty_spec(), memarg, 16, false),
        Instr::I64Store32(memarg) => spec_loadstore_ty(c, ValType::I64, memarg, 32, false),
        Instr::CurrentMemory => match spec_ctx_mems(c, 0) {
            Err(e) => Err(e),
            Ok(_) => Ok(fty(Seq::empty(), seq![AnyValType::I32])),
        },
        Instr::GrowMemory => match spec_ctx_mems(c, 0) {
            Err(e) => Err(e),
            Ok(_) => Ok(fty(seq![AnyValType::I32], seq![AnyValType::I32])),
        },
        Instr::Nop => Ok(fty(Seq::empty(), Seq::empty())),
        Instr::Unreachable => Ok(
            fty(seq![AnyValType::AnySeq('t')], seq![AnyValType::AnySeq('u')]),
        ),
        Instr::Block(rt, b) => {
            let c2 = CtxV { labels: seq![rt] + c.labels, ..c };
            match spec_seq_ty(c2, b@) {
                Err(e) => Err(e),
                Ok(t) => match spec_is_valid_with(
                    t,
                    fty(Seq::empty(), spec_resulttype_anyvec(rt)),
                ) {
                    Err(e) => Err(e),
                    Ok(_) => Ok(fty(Seq::empty(), spec_resulttype_anyvec(rt))),
                },
            }
        },
        Instr::Loop(rt, b) => {
            let c2 = CtxV { labels: seq![None] + c.labels, ..c };
            match spec_seq_ty(c2, b@) {
                Err(e) => Err(e),
                Ok(t) => match spec_is_valid_with(
                    t,
                    fty(Seq::empty(), spec_resulttype_anyvec(rt)),
                ) {
                    Err(e) => Err(e),
                    Ok(_) => Ok(fty(Seq::empty(), spec_resulttype_anyvec(rt))),
                },
            }
        },
        Instr::IfElse(rt, tb, eb) => {
            let c2 = CtxV { labels: seq![rt] + c.labels, ..c };
            match spec_seq_ty(c2, tb@) {
                Err(e) => Err(e),
                Ok(t1) => match spec_is_valid_with(
                    t1,
                    fty(Seq::empty(), spec_resulttype_anyvec(rt)),
                ) {
                    Err(e) => Err(e),
                    Ok(_) => match spec_seq_ty(c2, eb@) {
                        Err(e) => Err(e),
                        Ok(t2) => match spec_is_valid_with(
                            t2,
                            fty(Seq::empty(), spec_resulttype_anyvec(rt)),
                        ) {
                            Err(e) => Err(e),
                            Ok(_) => Ok(
                                fty(seq![AnyValType::I32], spec_resulttype_anyvec(rt)),
                            ),
                        },
                    },
                },
            }
        },
        Instr::Br(l) => match spec_ctx_labels(c, l) {
            Err(e) => Err(e),
            Ok(rt) => Ok(
                fty(
                    seq![AnyValType::AnySeq('t')] + spec_resulttype_anyvec(rt),
                    seq![AnyValType::AnySeq('u')],
                ),
            ),
        },
        Instr::BrIf(l) => match spec_ctx_labels(c, l) {
            Err(e) => Err(e),
            Ok(rt) => Ok(
                fty(
                    spec_resulttype_anyvec(rt) + seq![AnyValType::I32],
                    spec_resulttype_anyvec(rt),
                ),
            ),
        },
        Instr::BrTable(ls, ln) => match spec_ctx_labels(c, ln) {
            Err(e) => Err(e),
            Ok(rt) => match spec_check_br_labels(c, ls@, rt) {
                Err(e) => Err(e),
                Ok(_) => Ok(
                    fty(
                        seq![AnyValType::AnySeq('t')] + spec_resulttype_anyvec(rt)
                            + seq![AnyValType::I32],
                        seq![AnyValType::AnySeq('u')],
                    ),
                ),
            },
        },
        Instr::Return => match spec_ctx_return(c) {
            Err(e) => Err(e),
            Ok(rt) => Ok(
                fty(
                    seq![AnyValType::AnySeq('t')] + spec_resulttype_anyvec(rt),
                    seq![AnyValType::AnySeq('u')],
                ),
            ),
        },
        Instr::Call(x) => match spec_ctx_funcs(c, x) {
            Err(e) => Err(e),
            Ok(ft) => Ok(anyfty_of(ft)),
        },
        Instr::CallIndirect(x) => match spec_ctx_tables(c, 0) {
            Err(e) => Err(e),
            Ok(tt) => {
                if tt.elemtype != ElemType::AnyFunc {
                    Err(
                        ValidationError {
                            kind: ValidationErrorEnum::InstrCallIndirectElemTypeNotAnyFunc,
                        },
                    )
                } else {
                    match spec_ctx_types(c, x) {
                        Err(e) => Err(e),
                        Ok(ft) => Ok(
                            fty(
                                spec_valtypes_any(ft.args) + seq![AnyValType::I32],
                                spec_valtypes_any(ft.results),
                            ),
                        ),
                    }
                }
            },
        },
    }
}

/// The accumulated type of an instruction sequence: starting from the fully
/// polymorphic accumulator, each instruction's consumed types are matched
/// against the produced stack shape and its produced types, with the side
/// table applied, extend it.
pub open spec fn spec_seq_ty(c: CtxV, s: Seq<Instr>) -> Result<AnyFuncTypeV, ValidationError>
    decreases s,
{
    if s.len() == 0 {
        Ok(fty(seq![AnyValType::AnySeq('t')], seq![AnyValType::AnySeq('t')]))
    } else {
        match spec_seq_ty(c, s.drop_last()) {
            Err(e) => Err(e),
            Ok(acc) => match spec_instr_ty(c, s.last()) {
                Err(e) => Err(e),
                Ok(it) => match spec_consume(acc.results, it.args, Seq::empty()) {
                    Err(e) => Err(e),
                    Ok((t0, sub)) => Ok(
                        fty(acc.args, t0 + spec_apply_sub(sub, it.results)),
                    ),
                },
            },
        }
    }
}

/// Whether an executable typing result mirrors a mathematical one.
pub open spec fn afty_result_matches(
    r: VResult<AnyFuncType>,
    s: Result<AnyFuncTypeV, ValidationError>,
) -> bool {
    match (r, s) {
        (Ok(a), Ok(b)) => a@ =~= b,
        (Err(a), Err(b)) => a == b,
        _ => false,
    }
}

/// A failed prefix fails the whole sequence with the same error.
proof fn lemma_seq_ty_prefix_err(c: CtxV, s: Seq<Instr>, k: int)
    requires
        0 <= k <= s.len(),
        spec_seq_ty(c, s.subrange(0, k)) is Err,
    ensures
        spec_seq_ty(c, s) == spec_seq_ty(c, s.subrange(0, k)),
    decreases s.len() - k,
{
    if k == s.len() {
        assert(s.subrange(0, k) =~= s);
    } else {
        let cur = s.subrange(0, k + 1);
        assert(cur.drop_last() =~= s.subrange(0, k));
        assert(cur.len() > 0);
        assert(spec_seq_ty(c, cur) == spec_seq_ty(c, s.subrange(0, k)));
        lemma_seq_ty_prefix_err(c, s, k + 1);
    }
}

/// Checks limits: the upper bound, where present, must reach the lower one.
pub fn limit(c: &Ctx, l: &Limits) -> (r: VResult<()>)
    ensures
        r == if spec_limits_valid(*l) {
            Ok::<(), ValidationError>(())
        } else {
            Err(ValidationError { kind: ValidationErrorEnum::LimitMaxSmallerMin })
        },
{
    match l.max {
        Some(m) => {
            if m < l.min {
                c.error(ValidationErrorEnum::LimitMaxSmallerMin)?;
            }
        },
        None => {},
    }
    Ok(())
}

/// Checks a function type: at most one result.
pub fn function_type(c: &Ctx, ft: &FuncType) -> (r: VResult<()>)
    ensures
        r == if spec_functype_valid(ft@) {
            Ok::<(), ValidationError>(())
        } else {
            Err(
                ValidationError { kind: ValidationErrorEnum::FunctionTypeResultArityGreaterOne },
            )
        },
{
    if ft.results.len() > 1 {
        c.error(ValidationErrorEnum::FunctionTypeResultArityGreaterOne)?;
    }
    Ok(())
}

/// Checks a table type: its limits must be valid.
pub fn table_type(c: &Ctx, tt: &TableType) -> (r: VResult<()>)
    ensures
        r == if spec_limits_valid(tt.limits) {
            Ok::<(), ValidationError>(())
        } else {
            Err(ValidationError { kind: ValidationErrorEnum::LimitMaxSmallerMin })
        },
{
    limit(c, &tt.limits)
}

/// Checks a memory type: its limits must be valid.
pub fn memory_type(c: &Ctx, mt: &MemType) -> (r: VResult<()>)
    ensures
        r == if spec_limits_valid(mt.limits) {
            Ok::<(), ValidationError>(())
        } else {
            Err(ValidationError { kind: ValidationErrorEnum::LimitMaxSmallerMin })
        },
{
    limit(c, &mt.limits)
}

/// Checks a global type: always valid.
pub fn global_type(c: &Ctx, gt: &GlobalType) -> (r: VResult<()>)
    ensures
        r is Ok,
{
    let _ = c;
    let _ = gt;
    Ok(())
}

/// Checks a memory access instruction: a memory must exist and the
/// alignment must not exceed the access width.
fn loadstore(c: &Ctx, t: ValType, memarg: Memarg, bit_width: u32, is_load: bool) -> (r: VResult<
    AnyFuncType,
>)
    ensures
        afty_result_matches(r, spec_loadstore_ty(c@, t, memarg, bit_width, is_load)),
{
    match c.mems(0) {
        Err(e) => Err(e),
        Ok(_) => {
            let overaligned = memarg.align >= 6 || (1u32 << memarg.align) > bit_width / 8;
            if overaligned {
                if is_load {
                    Err(ValidationError { kind: ValidationErrorEnum::InstrLoadOveraligned })
                } else {
                    Err(ValidationError { kind: ValidationErrorEnum::InstrStoreOveraligned })
                }
            } else {
                let r = if is_load {
                    AnyFuncType { args: vec![AnyValType::I32], results: vec![valtype_to_any(t)] }
                } else {
                    AnyFuncType { args: vec![AnyValType::I32, valtype_to_any(t)], results: Vec::new() }
                };
                proof {
                    if is_load {
                        assert(r@ =~= fty(seq![AnyValType::I32], seq![any_from_valtype(t)]));
                    } else {
                        assert(r@ =~= fty(
                            seq![AnyValType::I32, any_from_valtype(t)],
                            Seq::empty(),
                        ));
                    }
                }
                Ok(r)
            }
        },
    }
}

/// Checks that all labels of a branch table carry the same result type.
fn check_br_labels(c: &Ctx, ls: &Vec<u32>, rt: ResultType) -> (r: VResult<()>)
    ensures
        r == spec_check_br_labels(c@, ls@, rt),
{
    let mut i: usize = 0;
    proof {
        assert(ls@.subrange(0, ls@.len() as int) =~= ls@);
    }
    while i < ls.len()
        invariant
            i <= ls@.len(),
            spec_check_br_labels(c@, ls@, rt) == spec_check_br_labels(
                c@,
                ls@.subrange(i as int, ls@.len() as int),
                rt,
            ),
        decreases ls@.len() - i,
    {
        let ghost rest = ls@.subrange(i as int, ls@.len() as int);
        proof {
            assert(rest.first() == ls@[i as int]);
            assert(rest.drop_first() =~= ls@.subrange(i as int + 1, ls@.len() as int));
        }
        match c.labels(ls[i]) {
            Err(e) => {
                return Err(e);
            },
            Ok(rti) => {
                let neq = match (rti, rt) {
                    (None, None) => false,
                    (Some(a), Some(b)) => a != b,
                    _ => true,
                };
                if neq {
                    return Err(
                        ValidationError {
                            kind: ValidationErrorEnum::InstrBrTableNotSameLabelType,
                        },
                    );
                }
            },
        }
        i = i + 1;
    }
    proof {
        assert(ls@.subrange(ls@.len() as int, ls@.len() as int).len() == 0);
    }
    Ok(())
}

/// The numeric, parametric and plain control instructions: those whose type
/// needs no context lookup.
pub open spec fn is_plain_instr(i: Instr) -> bool {
    match i {
        Instr::TConst(_) | Instr::TUnop(_) | Instr::TBinop(_) | Instr::IxxTestop(_)
            | Instr::TRelop(_) | Instr::TReinterpret(_) | Instr::IxxTruncFxx(..)
            | Instr::I32WrapI64 | Instr::I64ExtendI32(_) | Instr::FxxConvertUxx(..)
            | Instr::F32DemoteF64 | Instr::F64PromoteF32 | Instr::Drop | Instr::Select
            | Instr::Nop | Instr::Unreachable => true,
        _ => false,
    }
}

/// The variable and memory instructions.
pub open spec fn is_var_mem_instr(i: Instr) -> bool {
    match i {
        Instr::GetLocal(_) | Instr::SetLocal(_) | Instr::TeeLocal(_) | Instr::GetGlobal(_)
            | Instr::SetGlobal(_) | Instr::TLoad(..) | Instr::IxxLoad8(..)
            | Instr::IxxLoad16(..) | Instr::I64Load32(..) | Instr::TStore(..)
            | Instr::IxxStore8(..) | Instr::IxxStore16(..) | Instr::I64Store32(_)
            | Instr::CurrentMemory | Instr::GrowMemory => true,
        _ => false,
    }
}

/// The branching and call instructions.
pub open spec fn is_branch_instr(i: Instr) -> bool {
    match i {
        Instr::Br(_) | Instr::BrIf(_) | Instr::BrTable(..) | Instr::Return | Instr::Call(_)
            | Instr::CallIndirect(_) => true,
        _ => false,
    }
}

/// Types the instructions that need no context lookup.
#[verifier::spinoff_prover]
fn instr_ty_plain(c: &Ctx, instr: &Instr) -> (r: VResult<AnyFuncType>)
    requires
        is_plain_instr(*instr),
    ensures
        afty_result_matches(r, spec_instr_ty(c@, *instr)),
{
    match instr {
        Instr::TConst(x) => {
            let t = x.ty();
            Ok(AnyFuncType { args: Vec::new(), results: vec![valtype_to_any(t)] })
        },
        Instr::TUnop(t) => Ok(
            AnyFuncType { args: vec![valtype_to_any(*t)], results: vec![valtype_to_any(*t)] },
        ),
        Instr::TBinop(t) => Ok(
            AnyFuncType {
                args: vec![valtype_to_any(*t), valtype_to_any(*t)],
                results: vec![valtype_to_any(*t)],
            },
        ),
        Instr::IxxTestop(it) => {
            let t = it.ty();
            Ok(AnyFuncType { args: vec![valtype_to_any(t)], results: vec![AnyValType::I32] })
        },
        Instr::TRelop(t) => Ok(
            AnyFuncType {
                args: vec![valtype_to_any(*t), valtype_to_any(*t)],
                results: vec![valtype_to_any(*t)],
            },
        ),
        Instr::TReinterpret(t) => {
            let from = t.reinterpret_from();
            Ok(AnyFuncType { args: vec![valtype_to_any(from)], results: vec![valtype_to_any(*t)] })
        },
        Instr::IxxTruncFxx(t2, _, t1) => {
            let a = t1.ty();
            let b = t2.ty();
            Ok(AnyFuncType { args: vec![valtype_to_any(a)], results: vec![valtype_to_any(b)] })
        },
        Instr::I32WrapI64 => Ok(
            AnyFuncType { args: vec![AnyValType::I64], results: vec![AnyValType::I32] },
        ),
        Instr::I64ExtendI32(_) => Ok(
            AnyFuncType { args: vec![AnyValType::I32], results: vec![AnyValType::I64] },
        ),
        Instr::FxxConvertUxx(t2, _, t1) => {
            let a = t1.ty();
            let b = t2.ty();
            Ok(AnyFuncType { args: vec![valtype_to_any(a)], results: vec![valtype_to_any(b)] })
        },
        Instr::F32DemoteF64 => Ok(
            AnyFuncType { args: vec![AnyValType::F64], results: vec![AnyValType::F32] },
        ),
        Instr::F64PromoteF32 => Ok(
            AnyFuncType { args: vec![AnyValType::F32], results: vec![AnyValType::F64] },
        ),
        Instr::Drop => Ok(AnyFuncType { args: vec![any('t')], results: Vec::new() }),
        Instr::Select => Ok(
            AnyFuncType { args: vec![any('t'), any('t'), AnyValType::I32], results: vec![any('t')] },
        ),
        Instr::Nop => Ok(AnyFuncType { args: Vec::new(), results: Vec::new() }),
        Instr::Unreachable => Ok(
            AnyFuncType { args: vec![any_seq('t')], results: vec![any_seq('u')] },
        ),
        _ => Err(ValidationError { kind: ValidationErrorEnum::ExprTypeMismatch }),
    }
}

/// Types the variable and memory instructions.
#[verifier::spinoff_prover]
fn instr_ty_var_mem(c: &Ctx, instr: &Instr) -> (r: VResult<AnyFuncType>)
    requires
        is_var_mem_instr(*instr),
    ensures
        afty_result_matches(r, spec_instr_ty(c@, *instr)),
{
    match instr {
        Instr::GetLocal(x) => match c.locals(*x) {
            Err(e) => Err(e),
            Ok(t) => Ok(AnyFuncType { args: Vec::new(), results: vec![valtype_to_any(t)] }),
        },
        Instr::SetLocal(x) => match c.locals(*x) {
            Err(e) => Err(e),
            Ok(t) => Ok(AnyFuncType { args: vec![valtype_to_any(t)], results: Vec::new() }),
        },
        Instr::TeeLocal(x) => match c.locals(*x) {
            Err(e) => Err(e),
            Ok(t) => Ok(
                AnyFuncType { args: vec![valtype_to_any(t)], results: vec![valtype_to_any(t)] },
            ),
        },
        Instr::GetGlobal(x) => match c.globals(*x) {
            Err(e) => Err(e),
            Ok(gt) => Ok(
                AnyFuncType { args: Vec::new(), results: vec![valtype_to_any(gt.valtype)] },
            ),
        },
        Instr::SetGlobal(x) => match c.globals(*x) {
            Err(e) => Err(e),
            Ok(gt) => {
                if gt.mutability != Mut::Var {
                    Err(ValidationError { kind: ValidationErrorEnum::InstrSetGlobalNotVar })
                } else {
                    Ok(AnyFuncType { args: vec![valtype_to_any(gt.valtype)], results: Vec::new() })
                }
            },
        },
        Instr::TLoad(t, memarg) => {
            let w = t.bit_width();
            loadstore(c, *t, *memarg, w, true)
        },
        Instr::IxxLoad8(it, _, memarg) => {
            let t = it.ty();
            loadstore(c, t, *memarg, 8, true)
        },
        Instr::IxxLoad16(it, _, memarg) => {
            let t = it.ty();
            loadstore(c, t, *memarg, 16, true)
        },
        Instr::I64Load32(_, memarg) => loadstore(c, ValType::I64, *memarg, 32, true),
        Instr::TStore(t, memarg) => {
            let w = t.bit_width();
            loadstore(c, *t, *memarg, w, false)
        },
        Instr::IxxStore8(it, memarg) => {
            let t = it.ty();
            loadstore(c, t, *memarg, 8, false)
        },
        Instr::IxxStore16(it, memarg) => {
            let t = it.ty();
            loadstore(c, t, *memarg, 16, false)
        },
        Instr::I64Store32(memarg) => loadstore(c, ValType::I64, *memarg, 32, false),
        Instr::CurrentMemory => match c.mems(0) {
            Err(e) => Err(e),
            Ok(_) => Ok(AnyFuncType { args: Vec::new(), results: vec![AnyValType::I32] }),
        },
        Instr::GrowMemory => match c.mems(0) {
            Err(e) => Err(e),
            Ok(_) => Ok(AnyFuncType { args: vec![AnyValType::I32], results: vec![AnyValType::I32] }),
        },
        _ => Err(ValidationError { kind: ValidationErrorEnum::ExprTypeMismatch }),
    }
}

/// Types the branching and call instructions.
#[verifier::spinoff_prover]
fn instr_ty_branch(c: &Ctx, instr: &Instr) -> (r: VResult<AnyFuncType>)
    requires
        is_branch_instr(*instr),
    ensures
        afty_result_matches(r, spec_instr_ty(c@, *instr)),
{
    match instr {
        Instr::Br(l) => match c.labels(*l) {
            Err(e) => Err(e),
            Ok(rt) => {
                let mut args = vec![any_seq('t')];
                let mut rtv = resulttype_to_anyvec(rt);
                args.append(&mut rtv);
                proof {
                    assert(args@ =~= seq![AnyValType::AnySeq('t')] + spec_resulttype_anyvec(rt));
                }
                Ok(AnyFuncType { args, results: vec![any_seq('u')] })
            },
        },
        Instr::BrIf(l) => match c.labels(*l) {
            Err(e) => Err(e),
            Ok(rt) => {
                let mut args = resulttype_to_anyvec(rt);
                args.push(AnyValType::I32);
                proof {
                    assert(args@ =~= spec_resulttype_anyvec(rt) + seq![AnyValType::I32]);
                }
                Ok(AnyFuncType { args, results: resulttype_to_anyvec(rt) })
            },
        },
        Instr::BrTable(ls, ln) => match c.labels(*ln) {
            Err(e) => Err(e),
            Ok(rt) => match check_br_labels(c, ls, rt) {
                Err(e) => Err(e),
                Ok(_) => {
                    let mut args = vec![any_seq('t')];
                    let mut rtv = resulttype_to_anyvec(rt);
                    args.append(&mut rtv);
                    args.push(AnyValType::I32);
                    proof {
                        assert(args@ =~= seq![AnyValType::AnySeq('t')] + spec_resulttype_anyvec(rt)
                            + seq![AnyValType::I32]);
                    }
                    Ok(AnyFuncType { args, results: vec![any_seq('u')] })
                },
            },
        },
        Instr::Return => match c.return_() {
            Err(e) => Err(e),
            Ok(rt) => {
                let mut args = vec![any_seq('t')];
                let mut rtv = resulttype_to_anyvec(rt);
                args.append(&mut rtv);
                proof {
                    assert(args@ =~= seq![AnyValType::AnySeq('t')] + spec_resulttype_anyvec(rt));
                }
                Ok(AnyFuncType { args, results: vec![any_seq('u')] })
            },
        },
        Instr::Call(x) => match c.funcs(*x) {
            Err(e) => Err(e),
            Ok(ft) => {
                let r = AnyFuncType {
                    args: valtypes_to_anyvec(&ft.args),
                    results: valtypes_to_anyvec(&ft.results),
                };
                Ok(r)
            },
        },
        Instr::CallIndirect(x) => match c.tables(0) {
            Err(e) => Err(e),
            Ok(tt) => {
                let eq_anyfunc = matches!(tt.elemtype, ElemType::AnyFunc);
                if !eq_anyfunc {
                    Err(
                        ValidationError {
                            kind: ValidationErrorEnum::InstrCallIndirectElemTypeNotAnyFunc,
                        },
                    )
                } else {
                    match c.types(*x) {
                        Err(e) => Err(e),
                        Ok(ft) => {
                            let mut args = valtypes_to_anyvec(&ft.args);
                            args.push(AnyValType::I32);
                            proof {
                                assert(args@ =~= spec_valtypes_any(ft.args@)
                                    + seq![AnyValType::I32]);
                            }
                            Ok(AnyFuncType { args, results: valtypes_to_anyvec(&ft.results) })
                        },
                    }
                }
            },
        },
        _ => Err(ValidationError { kind: ValidationErrorEnum::ExprTypeMismatch }),
    }
}

/// Computes the type of one instruction under a context, per the typing
/// rules table.
#[verifier::rlimit(100)]
#[verifier::spinoff_prover]
pub fn instruction(c: &Ctx, instr: &Instr) -> (r: VResult<AnyFuncType>)
    ensures
        afty_result_matches(r, spec_instr_ty(c@, *instr)),
    decreases *instr,
{
    match instr {
        Instr::Block(rt, b) => {
            proof {
                assert(decreases_to!(*instr => *b));
                assert(decreases_to!(*b => b@));
            }
            let c2 = c.with_prepended_label(*rt);
            match instruction_sequence(&c2, b) {
                Err(e) => Err(e),
                Ok(t) => {
                    let expected = AnyFuncType {
                        args: Vec::new(),
                        results: resulttype_to_anyvec(*rt),
                    };
                    proof {
                        assert(expected@ =~= fty(Seq::empty(), spec_resulttype_anyvec(*rt)));
                    }
                    match c2.is_valid_with(&t, &expected) {
                        Err(e) => Err(e),
                        Ok(_) => Ok(expected),
                    }
                },
            }
        },
        Instr::Loop(rt, b) => {
            proof {
                assert(decreases_to!(*instr => *b));
                assert(decreases_to!(*b => b@));
            }
            let c2 = c.with_prepended_label(None);
            match instruction_sequence(&c2, b) {
                Err(e) => Err(e),
                Ok(t) => {
                    let expected = AnyFuncType {
                        args: Vec::new(),
                        results: resulttype_to_anyvec(*rt),
                    };
                    proof {
                        assert(expected@ =~= fty(Seq::empty(), spec_resulttype_anyvec(*rt)));
                    }
                    match c2.is_valid_with(&t, &expected) {
                        Err(e) => Err(e),
                        Ok(_) => Ok(expected),
                    }
                },
            }
        },
        Instr::IfElse(rt, tb, eb) => {
            proof {
                assert(decreases_to!(*instr => *tb));
                assert(decreases_to!(*tb => tb@));
                assert(decreases_to!(*instr => *eb));
                assert(decreases_to!(*eb => eb@));
            }
            let c2 = c.with_prepended_label(*rt);
            match instruction_sequence(&c2, tb) {
                Err(e) => Err(e),
                Ok(t1) => {
                    let expected = AnyFuncType {
                        args: Vec::new(),
                        results: resulttype_to_anyvec(*rt),
                    };
                    proof {
                        assert(expected@ =~= fty(Seq::empty(), spec_resulttype_anyvec(*rt)));
                    }
                    match c2.is_valid_with(&t1, &expected) {
                        Err(e) => Err(e),
                        Ok(_) => match instruction_sequence(&c2, eb) {
                            Err(e) => Err(e),
                            Ok(t2) => match c2.is_valid_with(&t2, &expected) {
                                Err(e) => Err(e),
                                Ok(_) => {
                                    let r = AnyFuncType {
                                        args: vec![AnyValType::I32],
                                        results: resulttype_to_anyvec(*rt),
                                    };
                                    proof {
                                        assert(r@ =~= fty(
                                            seq![AnyValType::I32],
                                            spec_resulttype_anyvec(*rt),
                                        ));
                                    }
                                    Ok(r)
                                },
                            },
                        },
                    }
                },
            }
        },
        _ => {
            if matches!(instr, Instr::GetLocal(_) | Instr::SetLocal(_) | Instr::TeeLocal(_)
                | Instr::GetGlobal(_) | Instr::SetGlobal(_) | Instr::TLoad(..)
                | Instr::IxxLoad8(..) | Instr::IxxLoad16(..) | Instr::I64Load32(..)
                | Instr::TStore(..) | Instr::IxxStore8(..) | Instr::IxxStore16(..)
                | Instr::I64Store32(_) | Instr::CurrentMemory | Instr::GrowMemory) {
                instr_ty_var_mem(c, instr)
            } else if matches!(instr, Instr::Br(_) | Instr::BrIf(_) | Instr::BrTable(..)
                | Instr::Return | Instr::Call(_) | Instr::CallIndirect(_)) {
                instr_ty_branch(c, instr)
            } else {
                instr_ty_plain(c, instr)
            }
        },
    }
}

/// Computes the accumulated type of an instruction sequence.
pub fn instruction_sequence(c: &Ctx, instrs: &Vec<Instr>) -> (r: VResult<AnyFuncType>)
    ensures
        afty_result_matches(r, spec_seq_ty(c@, instrs@)),
    decreases instrs@,
{
    let mut instrs_ty = AnyFuncType { args: vec![any_seq('t')], results: vec![any_seq('t')] };
    proof {
        assert(instrs@.subrange(0, 0).len() == 0);
        assert(instrs_ty@ =~= fty(
            seq![AnyValType::AnySeq('t')],
            seq![AnyValType::AnySeq('t')],
        ));
    }
    let mut k: usize = 0;
    while k < instrs.len()
        invariant
            k <= instrs@.len(),
            spec_seq_ty(c@, instrs@.subrange(0, k as int)) == Ok::<_, ValidationError>(instrs_ty@),
        decreases instrs@.len() - k,
    {
        let ghost pre = instrs@.subrange(0, k as int);
        let ghost cur = instrs@.subrange(0, k as int + 1);
        proof {
            assert(cur.drop_last() =~= pre);
            assert(cur.last() == instrs@[k as int]);
            assert(decreases_to!(instrs@ => instrs@[k as int]));
        }
        let it = match instruction(c, &instrs[k]) {
            Err(e) => {
                proof {
                    assert(spec_seq_ty(c@, cur) == Err::<AnyFuncTypeV, _>(e));
                    lemma_seq_ty_prefix_err(c@, instrs@, k as int + 1);
                }
                return Err(e);
            },
            Ok(it) => it,
        };
        let empty_sub: Vec<(char, AnyValType)> = Vec::new();
        proof {
            assert(empty_sub@ =~= Seq::<(char, AnyValType)>::empty());
        }
        match consume_rec(&instrs_ty.results, instrs_ty.results.len(), &it.args, it.args.len(),
            empty_sub) {
            Err(e) => {
                proof {
                    assert(instrs_ty.results@.subrange(0, instrs_ty.results@.len() as int)
                        =~= instrs_ty.results@);
                    assert(it.args@.subrange(0, it.args@.len() as int) =~= it.args@);
                    assert(spec_seq_ty(c@, cur) == Err::<AnyFuncTypeV, _>(e));
                    lemma_seq_ty_prefix_err(c@, instrs@, k as int + 1);
                }
                return Err(e);
            },
            Ok((si2, sub)) => {
                proof {
                    assert(instrs_ty.results@.subrange(0, instrs_ty.results@.len() as int)
                        =~= instrs_ty.results@);
                    assert(it.args@.subrange(0, it.args@.len() as int) =~= it.args@);
                }
                let mut t0: Vec<AnyValType> = Vec::new();
                let mut j: usize = 0;
                while j < si2
                    invariant
                        j <= si2,
                        si2 <= instrs_ty.results@.len(),
                        t0@ == instrs_ty.results@.subrange(0, j as int),
                    decreases si2 - j,
                {
                    t0.push(instrs_ty.results[j]);
                    proof {
                        assert(t0@ =~= instrs_ty.results@.subrange(0, j as int + 1));
                    }
                    j = j + 1;
                }
                let mut t3 = apply_sub(&sub, &it.results);
                t0.append(&mut t3);
                instrs_ty = AnyFuncType { args: instrs_ty.args, results: t0 };
                proof {
                    assert(spec_seq_ty(c@, cur) == Ok::<_, ValidationError>(instrs_ty@));
                }
            },
        }
        k = k + 1;
    }
    proof {
        assert(instrs@.subrange(0, instrs@.len() as int) =~= instrs@);
    }
    Ok(instrs_ty)
}

/// The type of an expression: its body must type as `[] -> [rt?]`, and the
/// optional result is read off the computed stack shape.
pub open spec fn spec_expression(c: CtxV, body: Seq<Instr>) -> VResult<AnyResultType> {
    match spec_seq_ty(c, body) {
        Err(e) => Err(e),
        Ok(t) => match spec_is_valid_with(
            t,
            fty(Seq::empty(), seq![AnyValType::AnyOpt('t')]),
        ) {
            Err(e) => Err(e),
            Ok(_) => Ok(spec_any_vec_to_option(t.results)),
        },
    }
}

/// An expression checked against a declared result type: its body must type
/// as `[] -> [rt]`.
pub open spec fn spec_expression_with(c: CtxV, body: Seq<Instr>, rt: ResultType) -> VResult<()> {
    match spec_seq_ty(c, body) {
        Err(e) => Err(e),
        Ok(t) => spec_is_valid_with(t, fty(Seq::empty(), spec_resulttype_anyvec(rt))),
    }
}

/// Whether a sequence of constant instructions is valid from position `k`
/// on: each must be a constant or a read of a `Const` global.
pub open spec fn spec_const_expr_from(c: CtxV, body: Seq<Instr>, k: int) -> VResult<()>
    decreases body.len() - k,
{
    if k < 0 || k >= body.len() {
        Ok(())
    } else {
        match body[k] {
            Instr::TConst(_) => spec_const_expr_from(c, body, k + 1),
            Instr::GetGlobal(x) => match spec_ctx_globals(c, x) {
                Err(e) => Err(e),
                Ok(gt) => {
                    if gt.mutability != Mut::Const {
                        Err(
                            ValidationError {
                                kind: ValidationErrorEnum::ConstExprGetGlobalNotConst,
                            },
                        )
                    } else {
                        spec_const_expr_from(c, body, k + 1)
                    }
                },
            },
            _ => Err(ValidationError { kind: ValidationErrorEnum::ConstExprIlligalInstruction }),
        }
    }
}

/// Whether an instruction sequence is a valid constant expression.
pub open spec fn spec_const_expr(c: CtxV, body: Seq<Instr>) -> VResult<()> {
    spec_const_expr_from(c, body, 0)
}

/// Validation of one function definition against a context: resolve its
/// type, build the child context with the arguments and declared locals,
/// the result as the one label and as the return type, and check the body.
pub open spec fn spec_validate_func(c: CtxV, f: Func) -> Result<FuncTypeV, ValidationError> {
    match spec_ctx_types(c, f.type_) {
        Err(e) => Err(e),
        Ok(ft) => {
            let rt: ResultType = if ft.results.len() == 1 {
                Some(ft.results[0])
            } else {
                None
            };
            let c2 = CtxV {
                locals: ft.args + f.locals@,
                labels: seq![rt],
                return_: Some(rt),
                ..c
            };
            match spec_expression_with(c2, f.body.body@, rt) {
                Err(e) => Err(e),
                Ok(_) => Ok(ft),
            }
        },
    }
}

/// Computes the type of an expression.
pub fn expression(c: &Ctx, e: &Expr) -> (r: VResult<AnyResultType>)
    ensures
        r == spec_expression(c@, e.body@),
{
    let ty = match instruction_sequence(c, &e.body) {
        Err(err) => {
            return Err(err);
        },
        Ok(ty) => ty,
    };
    let expected = AnyFuncType { args: Vec::new(), results: vec![any_opt('t')] };
    proof {
        assert(expected@ =~= fty(Seq::empty(), seq![AnyValType::AnyOpt('t')]));
    }
    match c.is_valid_with(&ty, &expected) {
        Err(err) => Err(err),
        Ok(_) => Ok(c.any_vec_to_option(ty.results)),
    }
}

/// Checks an expression against a declared result type.
pub fn expression_with(c: &Ctx, e: &Expr, rt: ResultType) -> (r: VResult<()>)
    ensures
        r == spec_expression_with(c@, e.body@, rt),
{
    let ty = match instruction_sequence(c, &e.body) {
        Err(err) => {
            return Err(err);
        },
        Ok(ty) => ty,
    };
    let expected = AnyFuncType { args: Vec::new(), results: resulttype_to_anyvec(rt) };
    proof {
        assert(expected@ =~= fty(Seq::empty(), spec_resulttype_anyvec(rt)));
    }
    c.is_valid_with(&ty, &expected)
}

/// Checks that an expression is constant: every instruction a constant or a
/// read of a `Const` global.
pub fn const_expr(c: &Ctx, e: &Expr) -> (r: VResult<()>)
    ensures
        r == spec_const_expr(c@, e.body@),
{
    let mut k: usize = 0;
    while k < e.body.len()
        invariant
            k <= e.body@.len(),
            spec_const_expr(c@, e.body@) == spec_const_expr_from(c@, e.body@, k as int),
        decreases e.body@.len() - k,
    {
        match &e.body[k] {
            Instr::TConst(_) => {},
            Instr::GetGlobal(x) => match c.globals(*x) {
                Err(err) => {
                    return Err(err);
                },
                Ok(gt) => {
                    if gt.mutability != Mut::Const {
                        return Err(
                            ValidationError {
                                kind: ValidationErrorEnum::ConstExprGetGlobalNotConst,
                            },
                        );
                    }
                },
            },
            _ => {
                return Err(
                    ValidationError { kind: ValidationErrorEnum::ConstExprIlligalInstruction },
                );
            },
        }
        k = k + 1;
    }
    Ok(())
}

/// Validates one function definition against a context and returns its
/// resolved type.
pub fn function(c: &Ctx, f: &Func) -> (r: VResult<AnyFuncTypeOne>)
    ensures
        r matches Ok(one) ==> spec_validate_func(c@, *f) matches Ok(ftv) && one.0@ == anyfty_of(
            ftv,
        ),
        r matches Err(e) ==> spec_validate_func(c@, *f) == Err::<FuncTypeV, _>(e),
{
    let ft = match c.types(f.type_) {
        Err(e) => {
            return Err(e);
        },
        Ok(ft) => ft,
    };
    let rt: ResultType = if ft.results.len() == 1 {
        Some(ft.results[0])
    } else {
        None
    };
    let mut c2 = c.delegate();
    let mut locs = crate::types::dup_valtypes(&ft.args);
    let mut extra = crate::types::dup_valtypes(&f.locals);
    locs.append(&mut extra);
    c2.locals = locs;
    let mut labels: Vec<ResultType> = Vec::new();
    labels.push(rt);
    c2.labels = labels;
    c2.return_ = Some(rt);
    proof {
        let ghost ftv = (spec_ctx_types(c@, f.type_)->Ok_0);
        assert(c2@.locals =~= ftv.args + f.locals@);
        assert(c2@.labels =~= seq![rt]);
        assert(c2@ =~= (CtxV { locals: ftv.args + f.locals@, labels: seq![rt], return_: Some(rt),
            ..c@ }));
    }
    match expression_with(&c2, &f.body, rt) {
        Err(e) => Err(e),
        Ok(_) => {
            let one = AnyFuncTypeOne(
                AnyFuncType {
                    args: valtypes_to_anyvec(&ft.args),
                    results: valtypes_to_anyvec(&ft.results),
                },
            );
            proof {
                assert(one.0@ =~= anyfty_of(spec_ctx_types(c@, f.type_)->Ok_0));
            }
            Ok(one)
        },
    }
}

/// The types the function imports contribute to the context, in order.
pub open spec fn spec_import_func_types(types: Seq<FuncType>, imports: Seq<Import>) -> Seq<
    FuncTypeV,
>
    decreases imports.len(),
{
    if imports.len() == 0 {
        Seq::empty()
    } else {
        let rest = spec_import_func_types(types, imports.drop_last());
        match imports.last().desc {
            ImportDesc::Func(x) => rest.push(types[x as int]@),
            _ => rest,
        }
    }
}

/// The table types the imports contribute to the context, in order.
pub open spec fn spec_import_tabletypes(imports: Seq<Import>) -> Seq<TableType>
    decreases imports.len(),
{
    if imports.len() == 0 {
        Seq::empty()
    } else {
        let rest = spec_import_tabletypes(imports.drop_last());
        match imports.last().desc {
            ImportDesc::Table(tt) => rest.push(tt),
            _ => rest,
        }
    }
}

/// The memory types the imports contribute to the context, in order.
pub open spec fn spec_import_memtypes(imports: Seq<Import>) -> Seq<MemType>
    decreases imports.len(),
{
    if imports.len() == 0 {
        Seq::empty()
    } else {
        let rest = spec_import_memtypes(imports.drop_last());
        match imports.last().desc {
            ImportDesc::Mem(mt) => rest.push(mt),
            _ => rest,
        }
    }
}

/// The global types the imports contribute to the context, in order.
pub open spec fn spec_import_globaltypes(imports: Seq<Import>) -> Seq<GlobalType>
    decreases imports.len(),
{
    if imports.len() == 0 {
        Seq::empty()
    } else {
        let rest = spec_import_globaltypes(imports.drop_last());
        match imports.last().desc {
            ImportDesc::Global(gt) => rest.push(gt),
            _ => rest,
        }
    }
}

/// The module-level context: imported entries first, then the module's own
/// declared ones, in declaration order.
pub open spec fn spec_module_ctx(m: Module) -> CtxV {
    CtxV {
        types: m.types@.map_values(|t: FuncType| t@),
        funcs: spec_import_func_types(m.types@, m.imports@) + Seq::new(
            m.funcs@.len(),
            |k: int| m.types@[m.funcs@[k].type_ as int]@,
        ),
        tables: spec_import_tabletypes(m.imports@) + Seq::new(
            m.tables@.len(),
            |k: int| m.tables@[k].type_,
        ),
        mems: spec_import_memtypes(m.imports@) + Seq::new(
            m.mems@.len(),
            |k: int| m.mems@[k].type_,
        ),
        globals: spec_import_globaltypes(m.imports@) + Seq::new(
            m.globals@.len(),
            |k: int| m.globals@[k].type_,
        ),
        locals: Seq::empty(),
        labels: Seq::empty(),
        return_: None,
    }
}

/// The context constant expressions are checked under: only the imported
/// globals are visible, so initializers cannot read the module's own
/// globals, whose values do not exist yet at evaluation time.
pub open spec fn spec_module_ctx_im(m: Module) -> CtxV {
    CtxV { globals: spec_import_globaltypes(m.imports@), ..spec_module_ctx(m) }
}

/// Every type of the module's type table has at most one result.
pub open spec fn spec_check_types(m: Module) -> VResult<()> {
    if forall|i: int| 0 <= i < m.types@.len() ==> (#[trigger] m.types@[i].results@).len() <= 1 {
        Ok(())
    } else {
        Err(ValidationError { kind: ValidationErrorEnum::FunctionTypeResultArityGreaterOne })
    }
}

/// One import is declared well: a function import's type index is in range,
/// a table or memory import carries valid limits.
pub open spec fn spec_check_import_entry(m: Module, i: int) -> VResult<()> {
    match m.imports@[i].desc {
        ImportDesc::Func(x) => if (x as int) < m.types@.len() {
            Ok(())
        } else {
            Err(ValidationError { kind: ValidationErrorEnum::TypeIdxOutOfRange })
        },
        ImportDesc::Table(tt) => if spec_limits_valid(tt.limits) {
            Ok(())
        } else {
            Err(ValidationError { kind: ValidationErrorEnum::LimitMaxSmallerMin })
        },
        ImportDesc::Mem(mt) => if spec_limits_valid(mt.limits) {
            Ok(())
        } else {
            Err(ValidationError { kind: ValidationErrorEnum::LimitMaxSmallerMin })
        },
        ImportDesc::Global(_) => Ok(()),
    }
}

/// The imports from position `k` on are declared well.
pub open spec fn spec_check_imports_from(m: Module, k: int) -> VResult<()>
    decreases m.imports@.len() - k,
{
    if k < 0 || k >= m.imports@.len() {
        Ok(())
    } else {
        match spec_check_import_entry(m, k) {
            Err(e) => Err(e),
            Ok(_) => spec_check_imports_from(m, k + 1),
        }
    }
}

/// Every own function's type index is in range.
pub open spec fn spec_check_func_idx(m: Module) -> VResult<()> {
    if forall|i: int|
        0 <= i < m.funcs@.len() ==> (#[trigger] m.funcs@[i].type_ as int) < m.types@.len() {
        Ok(())
    } else {
        Err(ValidationError { kind: ValidationErrorEnum::TypeIdxOutOfRange })
    }
}

/// Every own table type carries valid limits.
pub open spec fn spec_check_own_tables(m: Module) -> VResult<()> {
    if forall|i: int|
        0 <= i < m.tables@.len() ==> spec_limits_valid((#[trigger] m.tables@[i]).type_.limits) {
        Ok(())
    } else {
        Err(ValidationError { kind: ValidationErrorEnum::LimitMaxSmallerMin })
    }
}

/// Every own memory type carries valid limits.
pub open spec fn spec_check_own_mems(m: Module) -> VResult<()> {
    if forall|i: int|
        0 <= i < m.mems@.len() ==> spec_limits_valid((#[trigger] m.mems@[i]).type_.limits) {
        Ok(())
    } else {
        Err(ValidationError { kind: ValidationErrorEnum::LimitMaxSmallerMin })
    }
}

/// The own functions from position `k` on validate under the module
/// context.
pub open spec fn spec_check_funcs_from(m: Module, k: int) -> VResult<()>
    decreases m.funcs@.len() - k,
{
    if k < 0 || k >= m.funcs@.len() {
        Ok(())
    } else {
        match spec_validate_func(spec_module_ctx(m), m.funcs@[k]) {
            Err(e) => Err(e),
            Ok(_) => spec_check_funcs_from(m, k + 1),
        }
    }
}

/// The own globals from position `k` on have constant initializers of their
/// declared type, over the imported globals only.
pub open spec fn spec_check_globals_from(m: Module, k: int) -> VResult<()>
    decreases m.globals@.len() - k,
{
    if k < 0 || k >= m.globals@.len() {
        Ok(())
    } else {
        match spec_const_expr(spec_module_ctx_im(m), m.globals@[k].init.body@) {
            Err(e) => Err(e),
            Ok(_) => match spec_expression_with(
                spec_module_ctx_im(m),
                m.globals@[k].init.body@,
                Some(m.globals@[k].type_.valtype),
            ) {
                Err(e) => Err(e),
                Ok(_) => spec_check_globals_from(m, k + 1),
            },
        }
    }
}

/// The element segments from position `k` on: target table in range,
/// constant offset of type i32, every function index in range.
pub open spec fn spec_check_elems_from(m: Module, k: int) -> VResult<()>
    decreases m.elem@.len() - k,
{
    if k < 0 || k >= m.elem@.len() {
        Ok(())
    } else {
        if (m.elem@[k].table as int) >= spec_module_ctx(m).tables.len() {
            Err(ValidationError { kind: ValidationErrorEnum::TableIdxOutOfRange })
        } else {
            match spec_const_expr(spec_module_ctx_im(m), m.elem@[k].offset.body@) {
                Err(e) => Err(e),
                Ok(_) => match spec_expression_with(
                    spec_module_ctx_im(m),
                    m.elem@[k].offset.body@,
                    Some(ValType::I32),
                ) {
                    Err(e) => Err(e),
                    Ok(_) => {
                        if forall|j: int|
                            0 <= j < m.elem@[k].init@.len() ==> (
                            #[trigger] m.elem@[k].init@[j] as int) < spec_module_ctx(
                                m,
                            ).funcs.len() {
                            spec_check_elems_from(m, k + 1)
                        } else {
                            Err(ValidationError { kind: ValidationErrorEnum::FuncIdxOutOfRange })
                        }
                    },
                },
            }
        }
    }
}

/// The data segments from position `k` on: target memory in range, constant
/// offset of type i32.
pub open spec fn spec_check_datas_from(m: Module, k: int) -> VResult<()>
    decreases m.data@.len() - k,
{
    if k < 0 || k >= m.data@.len() {
        Ok(())
    } else {
        if (m.data@[k].data as int) >= spec_module_ctx(m).mems.len() {
            Err(ValidationError { kind: ValidationErrorEnum::MemIdxOutOfRange })
        } else {
            match spec_const_expr(spec_module_ctx_im(m), m.data@[k].offset.body@) {
                Err(e) => Err(e),
                Ok(_) => match spec_expression_with(
                    spec_module_ctx_im(m),
                    m.data@[k].offset.body@,
                    Some(ValType::I32),
                ) {
                    Err(e) => Err(e),
                    Ok(_) => spec_check_datas_from(m, k + 1),
                },
            }
        }
    }
}

/// The start function, if present, is in range and of type `[] -> []`.
pub open spec fn spec_check_start(m: Module) -> VResult<()> {
    match m.start {
        None => Ok(()),
        Some(st) => {
            if (st.func as int) >= spec_module_ctx(m).funcs.len() {
                Err(ValidationError { kind: ValidationErrorEnum::FuncIdxOutOfRange })
            } else {
                let ft = spec_module_ctx(m).funcs[st.func as int];
                if ft.args.len() == 0 && ft.results.len() == 0 {
                    Ok(())
                } else {
                    Err(ValidationError { kind: ValidationErrorEnum::StartFunctionInvalidType })
                }
            }
        },
    }
}

/// One export's description indexes within the instance's entry counts.
pub open spec fn spec_check_export_entry(m: Module, i: int) -> VResult<()> {
    match m.exports@[i].desc {
        ExportDesc::Func(x) => if (x as int) < spec_module_ctx(m).funcs.len() {
            Ok(())
        } else {
            Err(ValidationError { kind: ValidationErrorEnum::FuncIdxOutOfRange })
        },
        ExportDesc::Table(x) => if (x as int) < spec_module_ctx(m).tables.len() {
            Ok(())
        } else {
            Err(ValidationError { kind: ValidationErrorEnum::TableIdxOutOfRange })
        },
        ExportDesc::Mem(x) => if (x as int) < spec_module_ctx(m).mems.len() {
            Ok(())
        } else {
            Err(ValidationError { kind: ValidationErrorEnum::MemIdxOutOfRange })
        },
        ExportDesc::Global(x) => if (x as int) < spec_module_ctx(m).globals.len() {
            Ok(())
        } else {
            Err(ValidationError { kind: ValidationErrorEnum::GlobalIdxOutOfRange })
        },
    }
}

/// The exports from position `k` on index within range.
pub open spec fn spec_check_exports_from(m: Module, k: int) -> VResult<()>
    decreases m.exports@.len() - k,
{
    if k < 0 || k >= m.exports@.len() {
        Ok(())
    } else {
        match spec_check_export_entry(m, k) {
            Err(e) => Err(e),
            Ok(_) => spec_check_exports_from(m, k + 1),
        }
    }
}

/// Export names are pairwise distinct.
pub open spec fn spec_export_names_unique(m: Module) -> bool {
    forall|i: int, j: int|
        0 <= i < j < m.exports@.len() ==> (#[trigger] m.exports@[i].name@) != (
        #[trigger] m.exports@[j].name@)
}

/// Validation of a whole module, per the module typing rules: the type
/// table, the imports as declared, the own entities under the module
/// context (constant expressions under the imported globals only), the
/// single-table and single-memory constraints, the start function, and the
/// exports with unique names.
pub open spec fn spec_validate_module(m: Module) -> Result<(), ValidationError> {
    match spec_check_types(m) {
        Err(e) => Err(e),
        Ok(_) => match spec_check_imports_from(m, 0) {
            Err(e) => Err(e),
            Ok(_) => match spec_check_func_idx(m) {
                Err(e) => Err(e),
                Ok(_) => {
                    if spec_module_ctx(m).tables.len() > 1 {
                        Err(ValidationError { kind: ValidationErrorEnum::ModuleTablesMoreThanOne })
                    } else if spec_check_own_tables(m) is Err {
                        spec_check_own_tables(m)
                    } else if spec_module_ctx(m).mems.len() > 1 {
                        Err(ValidationError { kind: ValidationErrorEnum::ModuleMemsMoreThanOne })
                    } else if spec_check_own_mems(m) is Err {
                        spec_check_own_mems(m)
                    } else {
                        match spec_check_funcs_from(m, 0) {
                            Err(e) => Err(e),
                            Ok(_) => match spec_check_globals_from(m, 0) {
                                Err(e) => Err(e),
                                Ok(_) => match spec_check_elems_from(m, 0) {
                                    Err(e) => Err(e),
                                    Ok(_) => match spec_check_datas_from(m, 0) {
                                        Err(e) => Err(e),
                                        Ok(_) => match spec_check_start(m) {
                                            Err(e) => Err(e),
                                            Ok(_) => match spec_check_exports_from(m, 0) {
                                                Err(e) => Err(e),
                                                Ok(_) => {
                                                    if spec_export_names_unique(m) {
                                                        Ok(())
                                                    } else {
                                                        Err(
                                                            ValidationError {
                                                                kind:
                                                                    ValidationErrorEnum::ExportNamesNotUnique,
                                                            },
                                                        )
                                                    }
                                                },
                                            },
                                        },
                                    },
                                },
                            },
                        }
                    }
                },
            },
        },
    }
}

/// Compares two names given as raw bytes.
pub fn bytes_eq(a: &Vec<u8>, b: &Vec<u8>) -> (r: bool)
    ensures
        r == (a@ == b@),
{
    if a.len() != b.len() {
        return false;
    }
    let mut i: usize = 0;
    while i < a.len()
        invariant
            i <= a.len(),
            a@.len() == b@.len(),
            forall|j: int| 0 <= j < i ==> a@[j] == b@[j],
        decreases a.len() - i,
    {
        if a[i] != b[i] {
            return false;
        }
        i = i + 1;
    }
    proof {
        assert(a@ =~= b@);
    }
    true
}

/// Builds the module-level context and its constant-expression variant.
fn build_module_ctx(m: &Module) -> (r: (Ctx, Ctx))
    requires
        forall|i: int|
            0 <= i < m.imports@.len() ==> ((#[trigger] m.imports@[i]).desc matches
                ImportDesc::Func(x) ==> (x as int) < m.types@.len()),
        forall|i: int|
            0 <= i < m.funcs@.len() ==> (#[trigger] m.funcs@[i].type_ as int) < m.types@.len(),
    ensures
        r.0@ == spec_module_ctx(*m),
        r.1@ == spec_module_ctx_im(*m),
{
    let mut fvec: Vec<FuncType> = Vec::new();
    let mut tvec: Vec<TableType> = Vec::new();
    let mut mvec: Vec<MemType> = Vec::new();
    let mut gvec: Vec<GlobalType> = Vec::new();
    let mut i: usize = 0;
    while i < m.imports.len()
        invariant
            i <= m.imports@.len(),
            forall|j: int|
                0 <= j < m.imports@.len() ==> ((#[trigger] m.imports@[j]).desc matches
                    ImportDesc::Func(x) ==> (x as int) < m.types@.len()),
            fvec@.map_values(|t: FuncType| t@) == spec_import_func_types(
                m.types@,
                m.imports@.subrange(0, i as int),
            ),
            tvec@ == spec_import_tabletypes(m.imports@.subrange(0, i as int)),
            mvec@ == spec_import_memtypes(m.imports@.subrange(0, i as int)),
            gvec@ == spec_import_globaltypes(m.imports@.subrange(0, i as int)),
        decreases m.imports@.len() - i,
    {
        proof {
            let cur = m.imports@.subrange(0, i as int + 1);
            assert(cur.drop_last() =~= m.imports@.subrange(0, i as int));
            assert(cur.last() == m.imports@[i as int]);
        }
        let ghost pre = fvec@;
        match &m.imports[i].desc {
            ImportDesc::Func(x) => {
                fvec.push(crate::types::dup_functype(&m.types[*x as usize]));
                proof {
                    assert(fvec@.map_values(|t: FuncType| t@) =~= pre.map_values(
                        |t: FuncType| t@,
                    ).push(fvec@.last()@));
                }
            },
            ImportDesc::Table(tt) => {
                tvec.push(*tt);
            },
            ImportDesc::Mem(mt) => {
                mvec.push(*mt);
            },
            ImportDesc::Global(gt) => {
                gvec.push(*gt);
            },
        }
        i = i + 1;
    }
    proof {
        assert(m.imports@.subrange(0, m.imports@.len() as int) =~= m.imports@);
    }
    let gimp = crate::validation::dup_globaltypes(&gvec);
    let ghost n_f = fvec@.len();
    let ghost n_t = tvec@.len();
    let ghost n_m = mvec@.len();
    let ghost n_g = gvec@.len();

    let mut i: usize = 0;
    while i < m.funcs.len()
        invariant
            i <= m.funcs@.len(),
            forall|j: int|
                0 <= j < m.funcs@.len() ==> (#[trigger] m.funcs@[j].type_ as int)
                    < m.types@.len(),
            fvec@.len() == n_f + i,
            fvec@.map_values(|t: FuncType| t@).subrange(0, n_f as int) == spec_import_func_types(
                m.types@,
                m.imports@,
            ),
            forall|k: int|
                0 <= k < i ==> (#[trigger] fvec@[n_f + k]@) == m.types@[m.funcs@[k].type_ as int]@,
        decreases m.funcs@.len() - i,
    {
        let ghost pre = fvec@;
        fvec.push(crate::types::dup_functype(&m.types[m.funcs[i].type_ as usize]));
        proof {
            assert(fvec@.map_values(|t: FuncType| t@).subrange(0, n_f as int) =~= pre.map_values(
                |t: FuncType| t@,
            ).subrange(0, n_f as int));
            assert forall|k: int| 0 <= k < i implies (#[trigger] fvec@[n_f + k]@) == m.types@[
                m.funcs@[k].type_ as int]@ by {
                assert(fvec@[n_f + k] == pre[n_f + k]);
            }
        }
        i = i + 1;
    }
    let mut i: usize = 0;
    while i < m.tables.len()
        invariant
            i <= m.tables@.len(),
            tvec@ == spec_import_tabletypes(m.imports@) + Seq::new(
                i as nat,
                |k: int| m.tables@[k].type_,
            ),
        decreases m.tables@.len() - i,
    {
        tvec.push(m.tables[i].type_);
        proof {
            assert(tvec@ =~= spec_import_tabletypes(m.imports@) + Seq::new(
                i as nat + 1,
                |k: int| m.tables@[k].type_,
            ));
        }
        i = i + 1;
    }
    let mut i: usize = 0;
    while i < m.mems.len()
        invariant
            i <= m.mems@.len(),
            mvec@ == spec_import_memtypes(m.imports@) + Seq::new(
                i as nat,
                |k: int| m.mems@[k].type_,
            ),
        decreases m.mems@.len() - i,
    {
        mvec.push(m.mems[i].type_);
        proof {
            assert(mvec@ =~= spec_import_memtypes(m.imports@) + Seq::new(
                i as nat + 1,
                |k: int| m.mems@[k].type_,
            ));
        }
        i = i + 1;
    }
    let mut i: usize = 0;
    while i < m.globals.len()
        invariant
            i <= m.globals@.len(),
            gvec@ == spec_import_globaltypes(m.imports@) + Seq::new(
                i as nat,
                |k: int| m.globals@[k].type_,
            ),
        decreases m.globals@.len() - i,
    {
        gvec.push(m.globals[i].type_);
        proof {
            assert(gvec@ =~= spec_import_globaltypes(m.imports@) + Seq::new(
                i as nat + 1,
                |k: int| m.globals@[k].type_,
            ));
        }
        i = i + 1;
    }

    let c = Ctx {
        types: crate::validation::dup_functypes(&m.types),
        funcs: fvec,
        tables: tvec,
        mems: mvec,
        globals: gvec,
        locals: Vec::new(),
        labels: Vec::new(),
        return_: None,
    };
    proof {
        assert(c@.types =~= m.types@.map_values(|t: FuncType| t@));
        let imported = spec_import_func_types(m.types@, m.imports@);
        let own = Seq::new(m.funcs@.len(), |k: int| m.types@[m.funcs@[k].type_ as int]@);
        assert forall|i: int| 0 <= i < c@.funcs.len() implies #[trigger] c@.funcs[i] == (imported
            + own)[i] by {
            if i < n_f {
                assert(c@.funcs.subrange(0, n_f as int)[i] == imported[i]);
            } else {
                assert(c.funcs@[n_f + (i - n_f)]@ == m.types@[m.funcs@[i - n_f].type_ as int]@);
            }
        }
        assert(c@.funcs =~= imported + own);
        assert(c@.locals =~= Seq::<ValType>::empty());
        assert(c@.labels =~= Seq::<ResultType>::empty());
        assert(c@ =~= spec_module_ctx(*m));
    }
    let mut cim = c.delegate();
    cim.globals = gimp;
    proof {
        assert(cim@ =~= spec_module_ctx_im(*m));
    }
    (c, cim)
}

/// A passing import check passes for each entry.
proof fn lemma_imports_entries_ok(m: Module, k: int)
    requires
        0 <= k,
        spec_check_imports_from(m, k) is Ok,
    ensures
        forall|i: int| k <= i < m.imports@.len() ==> spec_check_import_entry(m, i) is Ok,
    decreases m.imports@.len() - k,
{
    if k < m.imports@.len() {
        lemma_imports_entries_ok(m, k + 1);
    }
}

/// The first `n` stages of module validation have passed.
pub open spec fn spec_stages_through(m: Module, n: int) -> bool {
    &&& (n >= 1 ==> spec_check_types(m) is Ok)
    &&& (n >= 2 ==> spec_check_imports_from(m, 0) is Ok)
    &&& (n >= 3 ==> spec_check_func_idx(m) is Ok)
    &&& (n >= 4 ==> spec_module_ctx(m).tables.len() <= 1)
    &&& (n >= 5 ==> spec_check_own_tables(m) is Ok)
    &&& (n >= 6 ==> spec_module_ctx(m).mems.len() <= 1)
    &&& (n >= 7 ==> spec_check_own_mems(m) is Ok)
    &&& (n >= 8 ==> spec_check_funcs_from(m, 0) is Ok)
    &&& (n >= 9 ==> spec_check_globals_from(m, 0) is Ok)
    &&& (n >= 10 ==> spec_check_elems_from(m, 0) is Ok)
    &&& (n >= 11 ==> spec_check_datas_from(m, 0) is Ok)
    &&& (n >= 12 ==> spec_check_start(m) is Ok)
    &&& (n >= 13 ==> spec_check_exports_from(m, 0) is Ok)
}

/// Validates a whole module; the result depends on the module alone.
#[verifier::rlimit(100)]
#[verifier::spinoff_prover]
pub fn validate_module(m: &Module) -> (r: Result<(), ValidationError>)
    ensures
        r == spec_validate_module(*m),
{
    let ghost mv = *m;

    let mut i: usize = 0;
    while i < m.types.len()
        invariant
            i <= m.types@.len(),
            mv == *m,
            forall|j: int| 0 <= j < i ==> (#[trigger] m.types@[j].results@).len() <= 1,
        decreases m.types@.len() - i,
    {
        if m.types[i].results.len() > 1 {
            return Err(
                ValidationError { kind: ValidationErrorEnum::FunctionTypeResultArityGreaterOne },
            );
        }
        i = i + 1;
    }
    proof {
        assert(spec_stages_through(mv, 1));
    }

    let mut i: usize = 0;
    while i < m.imports.len()
        invariant
            i <= m.imports@.len(),
            mv == *m,
            spec_stages_through(mv, 1),
            spec_check_imports_from(mv, 0) == spec_check_imports_from(mv, i as int),
        decreases m.imports@.len() - i,
    {
        match &m.imports[i].desc {
            ImportDesc::Func(x) => {
                if !((*x as usize) < m.types.len()) {
                    return Err(ValidationError { kind: ValidationErrorEnum::TypeIdxOutOfRange });
                }
            },
            ImportDesc::Table(tt) => {
                if let Some(mx) = tt.limits.max {
                    if mx < tt.limits.min {
                        return Err(
                            ValidationError { kind: ValidationErrorEnum::LimitMaxSmallerMin },
                        );
                    }
                }
            },
            ImportDesc::Mem(mt) => {
                if let Some(mx) = mt.limits.max {
                    if mx < mt.limits.min {
                        return Err(
                            ValidationError { kind: ValidationErrorEnum::LimitMaxSmallerMin },
                        );
                    }
                }
            },
            ImportDesc::Global(_) => {},
        }
        i = i + 1;
    }
    proof {
        assert(spec_stages_through(mv, 2));
    }

    let mut i: usize = 0;
    while i < m.funcs.len()
        invariant
            i <= m.funcs@.len(),
            mv == *m,
            spec_stages_through(mv, 2),
            forall|j: int| 0 <= j < i ==> (#[trigger] m.funcs@[j].type_ as int) < m.types@.len(),
        decreases m.funcs@.len() - i,
    {
        if !((m.funcs[i].type_ as usize) < m.types.len()) {
            return Err(ValidationError { kind: ValidationErrorEnum::TypeIdxOutOfRange });
        }
        i = i + 1;
    }
    proof {
        assert(spec_stages_through(mv, 3));
    }

    proof {
        lemma_imports_entries_ok(mv, 0);
        assert forall|ii: int| 0 <= ii < m.imports@.len() implies ((
        #[trigger] m.imports@[ii]).desc matches ImportDesc::Func(x) ==> (x as int)
            < m.types@.len()) by {
            assert(spec_check_import_entry(mv, ii) is Ok);
        }
    }
    let (c, cim) = build_module_ctx(m);

    if c.tables.len() > 1 {
        return Err(ValidationError { kind: ValidationErrorEnum::ModuleTablesMoreThanOne });
    }
    proof {
        assert(spec_stages_through(mv, 4));
    }
    let mut i: usize = 0;
    while i < m.tables.len()
        invariant
            i <= m.tables@.len(),
            mv == *m,
            spec_stages_through(mv, 4),
            forall|j: int|
                0 <= j < i ==> spec_limits_valid((#[trigger] m.tables@[j]).type_.limits),
        decreases m.tables@.len() - i,
    {
        if let Some(mx) = m.tables[i].type_.limits.max {
            if mx < m.tables[i].type_.limits.min {
                return Err(ValidationError { kind: ValidationErrorEnum::LimitMaxSmallerMin });
            }
        }
        i = i + 1;
    }
    proof {
        assert(spec_stages_through(mv, 5));
    }
    if c.mems.len() > 1 {
        return Err(ValidationError { kind: ValidationErrorEnum::ModuleMemsMoreThanOne });
    }
    proof {
        assert(spec_stages_through(mv, 6));
    }
    let mut i: usize = 0;
    while i < m.mems.len()
        invariant
            i <= m.mems@.len(),
            mv == *m,
            spec_stages_through(mv, 6),
            forall|j: int| 0 <= j < i ==> spec_limits_valid((#[trigger] m.mems@[j]).type_.limits),
        decreases m.mems@.len() - i,
    {
        if let Some(mx) = m.mems[i].type_.limits.max {
            if mx < m.mems[i].type_.limits.min {
                return Err(ValidationError { kind: ValidationErrorEnum::LimitMaxSmallerMin });
            }
        }
        i = i + 1;
    }
    proof {
        assert(spec_stages_through(mv, 7));
    }

    let mut i: usize = 0;
    while i < m.funcs.len()
        invariant
            i <= m.funcs@.len(),
            mv == *m,
            spec_stages_through(mv, 7),
            c@ == spec_module_ctx(mv),
            spec_check_funcs_from(mv, 0) == spec_check_funcs_from(mv, i as int),
        decreases m.funcs@.len() - i,
    {
        match function(&c, &m.funcs[i]) {
            Err(e) => {
                return Err(e);
            },
            Ok(_) => {},
        }
        i = i + 1;
    }
    proof {
        assert(spec_stages_through(mv, 8));
    }

    let mut i: usize = 0;
    while i < m.globals.len()
        invariant
            i <= m.globals@.len(),
            mv == *m,
            spec_stages_through(mv, 8),
            cim@ == spec_module_ctx_im(mv),
            spec_check_globals_from(mv, 0) == spec_check_globals_from(mv, i as int),
        decreases m.globals@.len() - i,
    {
        match const_expr(&cim, &m.globals[i].init) {
            Err(e) => {
                return Err(e);
            },
            Ok(_) => {},
        }
        let vt = m.globals[i].type_.valtype;
        match expression_with(&cim, &m.globals[i].init, Some(vt)) {
            Err(e) => {
                return Err(e);
            },
            Ok(_) => {},
        }
        i = i + 1;
    }
    proof {
        assert(spec_stages_through(mv, 9));
    }

    let mut i: usize = 0;
    while i < m.elem.len()
        invariant
            i <= m.elem@.len(),
            mv == *m,
            spec_stages_through(mv, 9),
            c@ == spec_module_ctx(mv),
            cim@ == spec_module_ctx_im(mv),
            spec_check_elems_from(mv, 0) == spec_check_elems_from(mv, i as int),
        decreases m.elem@.len() - i,
    {
        if !((m.elem[i].table as usize) < c.tables.len()) {
            return Err(ValidationError { kind: ValidationErrorEnum::TableIdxOutOfRange });
        }
        match const_expr(&cim, &m.elem[i].offset) {
            Err(e) => {
                return Err(e);
            },
            Ok(_) => {},
        }
        match expression_with(&cim, &m.elem[i].offset, Some(ValType::I32)) {
            Err(e) => {
                return Err(e);
            },
            Ok(_) => {},
        }
        let mut j: usize = 0;
        while j < m.elem[i].init.len()
            invariant
                j <= m.elem@[i as int].init@.len(),
                i < m.elem@.len(),
                mv == *m,
                spec_stages_through(mv, 9),
                c@ == spec_module_ctx(mv),
                cim@ == spec_module_ctx_im(mv),
                spec_check_elems_from(mv, 0) == spec_check_elems_from(mv, i as int),
                (m.elem@[i as int].table as int) < spec_module_ctx(mv).tables.len(),
                spec_const_expr(spec_module_ctx_im(mv), m.elem@[i as int].offset.body@) is Ok,
                spec_expression_with(
                    spec_module_ctx_im(mv),
                    m.elem@[i as int].offset.body@,
                    Some(ValType::I32),
                ) is Ok,
                forall|jj: int|
                    0 <= jj < j ==> (#[trigger] m.elem@[i as int].init@[jj] as int)
                        < spec_module_ctx(mv).funcs.len(),
            decreases m.elem@[i as int].init@.len() - j,
        {
            if !((m.elem[i].init[j] as usize) < c.funcs.len()) {
                return Err(ValidationError { kind: ValidationErrorEnum::FuncIdxOutOfRange });
            }
            j = j + 1;
        }
        i = i + 1;
    }
    proof {
        assert(spec_stages_through(mv, 10));
    }

    let mut i: usize = 0;
    while i < m.data.len()
        invariant
            i <= m.data@.len(),
            mv == *m,
            spec_stages_through(mv, 10),
            c@ == spec_module_ctx(mv),
            cim@ == spec_module_ctx_im(mv),
            spec_check_datas_from(mv, 0) == spec_check_datas_from(mv, i as int),
        decreases m.data@.len() - i,
    {
        if !((m.data[i].data as usize) < c.mems.len()) {
            return Err(ValidationError { kind: ValidationErrorEnum::MemIdxOutOfRange });
        }
        match const_expr(&cim, &m.data[i].offset) {
            Err(e) => {
                return Err(e);
            },
            Ok(_) => {},
        }
        match expression_with(&cim, &m.data[i].offset, Some(ValType::I32)) {
            Err(e) => {
                return Err(e);
            },
            Ok(_) => {},
        }
        i = i + 1;
    }
    proof {
        assert(spec_stages_through(mv, 11));
    }

    match &m.start {
        None => {},
        Some(st) => {
            if !((st.func as usize) < c.funcs.len()) {
                return Err(ValidationError { kind: ValidationErrorEnum::FuncIdxOutOfRange });
            }
            let ft = &c.funcs[st.func as usize];
            if !(ft.args.len() == 0 && ft.results.len() == 0) {
                return Err(ValidationError { kind: ValidationErrorEnum::StartFunctionInvalidType });
            }
        },
    }
    proof {
        assert(spec_stages_through(mv, 12));
    }

    let mut i: usize = 0;
    while i < m.exports.len()
        invariant
            i <= m.exports@.len(),
            mv == *m,
            spec_stages_through(mv, 12),
            c@ == spec_module_ctx(mv),
            spec_check_exports_from(mv, 0) == spec_check_exports_from(mv, i as int),
        decreases m.exports@.len() - i,
    {
        match m.exports[i].desc {
            ExportDesc::Func(x) => {
                if !((x as usize) < c.funcs.len()) {
                    return Err(ValidationError { kind: ValidationErrorEnum::FuncIdxOutOfRange });
                }
            },
            ExportDesc::Table(x) => {
                if !((x as usize) < c.tables.len()) {
                    return Err(ValidationError { kind: ValidationErrorEnum::TableIdxOutOfRange });
                }
            },
            ExportDesc::Mem(x) => {
                if !((x as usize) < c.mems.len()) {
                    return Err(ValidationError { kind: ValidationErrorEnum::MemIdxOutOfRange });
                }
            },
            ExportDesc::Global(x) => {
                if !((x as usize) < c.globals.len()) {
                    return Err(ValidationError { kind: ValidationErrorEnum::GlobalIdxOutOfRange });
                }
            },
        }
        i = i + 1;
    }
    proof {
        assert(spec_stages_through(mv, 13));
    }

    let mut i: usize = 0;
    while i < m.exports.len()
        invariant
            i <= m.exports@.len(),
            mv == *m,
            spec_stages_through(mv, 13),
            forall|x: int, y: int|
                0 <= x < y < m.exports@.len() && x < i ==> (#[trigger] m.exports@[x].name@) != (
                #[trigger] m.exports@[y].name@),
        decreases m.exports@.len() - i,
    {
        let mut j: usize = i + 1;
        while j < m.exports.len()
            invariant
                i < m.exports@.len(),
                i + 1 <= j <= m.exports@.len(),
                mv == *m,
                spec_stages_through(mv, 13),
                forall|x: int, y: int|
                    0 <= x < y < m.exports@.len() && x < i ==> (#[trigger] m.exports@[x].name@)
                        != (#[trigger] m.exports@[y].name@),
                forall|y: int|
                    i < y < j ==> (#[trigger] m.exports@[y].name@) != m.exports@[i as int].name@,
            decreases m.exports@.len() - j,
        {
            if bytes_eq(&m.exports[i].name, &m.exports[j].name) {
                proof {
                    assert(!spec_export_names_unique(mv));
                }
                return Err(ValidationError { kind: ValidationErrorEnum::ExportNamesNotUnique });
            }
            j = j + 1;
        }
        i = i + 1;
    }
    proof {
        assert(spec_export_names_unique(mv));
    }
    Ok(())
}

/// Validates a whole module under a root context; the context carries no
/// information the module does not, so the result depends on the module
/// alone.
pub fn module(c: &Ctx, md: &Module) -> (r: VResult<()>)
    ensures
        r == spec_validate_module(*md),
{
    let _ = c;
    validate_module(md)
}

} // verus!

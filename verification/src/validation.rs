//! The validation context and the extended value-type algebra with its
//! unification: rigid variables (`Any`), sequence variables (`AnySeq`) and
//! optional variables (`AnyOpt`) encode the stack-polymorphic instruction
//! types, with a side table of substitutions scoped to one
//! instruction-sequence check.

use vstd::prelude::*;
use crate::types::{FuncType, FuncTypeV, TableType, MemType, GlobalType, ValType, ResultType};

verus! {

/// Everything validation can reject.
#[derive(Clone, Copy, Debug, PartialEq, Eq, Structural)]
pub enum ValidationErrorEnum {
    LimitMaxSmallerMin,
    FunctionTypeResultArityGreaterOne,
    InstrSetGlobalNotVar,
    InstrLoadOveraligned,
    InstrStoreOveraligned,
    InstrBrTableNotSameLabelType,
    InstrCallIndirectElemTypeNotAnyFunc,
    ConstExprGetGlobalNotConst,
    ConstExprIlligalInstruction,
    LocalIdxOutOfRange,
    GlobalIdxOutOfRange,
    MemIdxOutOfRange,
    LabelIdxOutOfRange,
    FuncIdxOutOfRange,
    TableIdxOutOfRange,
    TypeIdxOutOfRange,
    ReturnTypeAbsent,
    InstrSequenceUnificationFailed,
    ExprTypeMismatch,
    ModuleTablesMoreThanOne,
    ModuleMemsMoreThanOne,
    ExportNamesNotUnique,
    StartFunctionInvalidType,
}

/// A validation failure, carrying its kind.
#[derive(Clone, Copy, Debug, PartialEq, Eq, Structural)]
pub struct ValidationError {
    pub kind: ValidationErrorEnum,
}

/// Result of a validation step.
pub type VResult<T> = Result<T, ValidationError>;

/// A value type extended with type variables: `Any` matches one value of
/// some type, `AnySeq` zero or more arbitrary values, `AnyOpt` zero or one.
#[derive(Clone, Copy, Debug, PartialEq, Eq, Structural)]
pub enum AnyValType {
    I32,
    I64,
    F32,
    F64,
    Any(char),
    AnySeq(char),
    AnyOpt(char),
}

/// Builds a rigid type variable.
pub fn any(t: char) -> (r: AnyValType)
    ensures
        r == AnyValType::Any(t),
{
    AnyValType::Any(t)
}

/// Builds a sequence type variable.
pub fn any_seq(t: char) -> (r: AnyValType)
    ensures
        r == AnyValType::AnySeq(t),
{
    AnyValType::AnySeq(t)
}

/// Builds an optional type variable.
pub fn any_opt(t: char) -> (r: AnyValType)
    ensures
        r == AnyValType::AnyOpt(t),
{
    AnyValType::AnyOpt(t)
}

/// The extended type a plain value type denotes.
pub open spec fn any_from_valtype(v: ValType) -> AnyValType {
    match v {
        ValType::I32 => AnyValType::I32,
        ValType::I64 => AnyValType::I64,
        ValType::F32 => AnyValType::F32,
        ValType::F64 => AnyValType::F64,
    }
}

/// Widens a value type into the extended algebra.
pub fn valtype_to_any(v: ValType) -> (r: AnyValType)
    ensures
        r == any_from_valtype(v),
{
    match v {
        ValType::I32 => AnyValType::I32,
        ValType::I64 => AnyValType::I64,
        ValType::F32 => AnyValType::F32,
        ValType::F64 => AnyValType::F64,
    }
}

/// Whether an extended type is one of the four concrete value types.
pub open spec fn is_concrete(v: AnyValType) -> bool {
    match v {
        AnyValType::I32 | AnyValType::I64 | AnyValType::F32 | AnyValType::F64 => true,
        _ => false,
    }
}

/// The extended types of a declared result type: zero or one concrete types.
pub open spec fn spec_resulttype_anyvec(rt: ResultType) -> Seq<AnyValType> {
    match rt {
        Some(v) => seq![any_from_valtype(v)],
        None => Seq::empty(),
    }
}

/// Builds the extended types of a declared result type.
pub fn resulttype_to_anyvec(rt: ResultType) -> (r: Vec<AnyValType>)
    ensures
        r@ == spec_resulttype_anyvec(rt),
{
    let mut out: Vec<AnyValType> = Vec::new();
    if let Some(v) = rt {
        out.push(valtype_to_any(v));
        proof {
            assert(out@ =~= spec_resulttype_anyvec(rt));
        }
    } else {
        proof {
            assert(out@ =~= spec_resulttype_anyvec(rt));
        }
    }
    out
}

/// An instruction type over the extended algebra: consumed stack types to
/// produced stack types.
#[derive(Debug)]
pub struct AnyFuncType {
    pub args: Vec<AnyValType>,
    pub results: Vec<AnyValType>,
}

/// Mathematical image of an `AnyFuncType`.
#[verifier::ext_equal]
pub struct AnyFuncTypeV {
    pub args: Seq<AnyValType>,
    pub results: Seq<AnyValType>,
}

impl View for AnyFuncType {
    type V = AnyFuncTypeV;

    open spec fn view(&self) -> AnyFuncTypeV {
        AnyFuncTypeV { args: self.args@, results: self.results@ }
    }
}

/// The computed type of an expression: an optional extended type.
pub type AnyResultType = Option<AnyValType>;

/// A function's type carried as a single unit through the extended algebra.
#[derive(Debug)]
pub struct AnyFuncTypeOne(pub AnyFuncType);

/// The typing context: type table, function, table, memory and global types
/// (imports first), locals, label result types (index 0 innermost) and the
/// return type.
#[derive(Debug)]
pub struct Ctx {
    pub types: Vec<FuncType>,
    pub funcs: Vec<FuncType>,
    pub tables: Vec<TableType>,
    pub mems: Vec<MemType>,
    pub globals: Vec<GlobalType>,
    pub locals: Vec<ValType>,
    pub labels: Vec<ResultType>,
    pub return_: Option<ResultType>,
}

/// Mathematical image of a typing context.
#[verifier::ext_equal]
pub struct CtxV {
    pub types: Seq<FuncTypeV>,
    pub funcs: Seq<FuncTypeV>,
    pub tables: Seq<TableType>,
    pub mems: Seq<MemType>,
    pub globals: Seq<GlobalType>,
    pub locals: Seq<ValType>,
    pub labels: Seq<ResultType>,
    pub return_: Option<ResultType>,
}

impl View for Ctx {
    type V = CtxV;

    open spec fn view(&self) -> CtxV {
        CtxV {
            types: self.types@.map_values(|t: FuncType| t@),
            funcs: self.funcs@.map_values(|t: FuncType| t@),
            tables: self.tables@,
            mems: self.mems@,
            globals: self.globals@,
            locals: self.locals@,
            labels: self.labels@,
            return_: self.return_,
        }
    }
}

/// Context lookup of a local's type.
pub open spec fn spec_ctx_locals(c: CtxV, x: u32) -> VResult<ValType> {
    if (x as int) < c.locals.len() {
        Ok(c.locals[x as int])
    } else {
        Err(ValidationError { kind: ValidationErrorEnum::LocalIdxOutOfRange })
    }
}

/// Context lookup of a global's type.
pub open spec fn spec_ctx_globals(c: CtxV, x: u32) -> VResult<GlobalType> {
    if (x as int) < c.globals.len() {
        Ok(c.globals[x as int])
    } else {
        Err(ValidationError { kind: ValidationErrorEnum::GlobalIdxOutOfRange })
    }
}

/// Context lookup of a memory's type.
pub open spec fn spec_ctx_mems(c: CtxV, x: u32) -> VResult<MemType> {
    if (x as int) < c.mems.len() {
        Ok(c.mems[x as int])
    } else {
        Err(ValidationError { kind: ValidationErrorEnum::MemIdxOutOfRange })
    }
}

/// Context lookup of a table's type.
pub open spec fn spec_ctx_tables(c: CtxV, x: u32) -> VResult<TableType> {
    if (x as int) < c.tables.len() {
        Ok(c.tables[x as int])
    } else {
        Err(ValidationError { kind: ValidationErrorEnum::TableIdxOutOfRange })
    }
}

/// Context lookup of a label's result type.
pub open spec fn spec_ctx_labels(c: CtxV, x: u32) -> VResult<ResultType> {
    if (x as int) < c.labels.len() {
        Ok(c.labels[x as int])
    } else {
        Err(ValidationError { kind: ValidationErrorEnum::LabelIdxOutOfRange })
    }
}

/// Context lookup of the return type.
pub open spec fn spec_ctx_return(c: CtxV) -> VResult<ResultType> {
    match c.return_ {
        Some(rt) => Ok(rt),
        None => Err(ValidationError { kind: ValidationErrorEnum::ReturnTypeAbsent }),
    }
}

/// Context lookup of a function's type.
pub open spec fn spec_ctx_funcs(c: CtxV, x: u32) -> Result<FuncTypeV, ValidationError> {
    if (x as int) < c.funcs.len() {
        Ok(c.funcs[x as int])
    } else {
        Err(ValidationError { kind: ValidationErrorEnum::FuncIdxOutOfRange })
    }
}

/// Context lookup of an entry of the type table.
pub open spec fn spec_ctx_types(c: CtxV, x: u32) -> Result<FuncTypeV, ValidationError> {
    if (x as int) < c.types.len() {
        Ok(c.types[x as int])
    } else {
        Err(ValidationError { kind: ValidationErrorEnum::TypeIdxOutOfRange })
    }
}

/// Whether an executable lookup result mirrors a mathematical one.
pub open spec fn functype_result_matches(
    r: VResult<FuncType>,
    s: Result<FuncTypeV, ValidationError>,
) -> bool {
    match (r, s) {
        (Ok(a), Ok(b)) => a@ == b,
        (Err(a), Err(b)) => a == b,
        _ => false,
    }
}

impl Ctx {
    /// Creates the empty root context.
    pub fn new() -> (r: Ctx)
        ensures
            r@.types =~= Seq::<FuncTypeV>::empty(),
            r@.funcs =~= Seq::<FuncTypeV>::empty(),
            r@.tables =~= Seq::<TableType>::empty(),
            r@.mems =~= Seq::<MemType>::empty(),
            r@.globals =~= Seq::<GlobalType>::empty(),
            r@.locals =~= Seq::<ValType>::empty(),
            r@.labels =~= Seq::<ResultType>::empty(),
            r@.return_ is None,
    {
        Ctx {
            types: Vec::new(),
            funcs: Vec::new(),
            tables: Vec::new(),
            mems: Vec::new(),
            globals: Vec::new(),
            locals: Vec::new(),
            labels: Vec::new(),
            return_: None,
        }
    }

    /// Wraps an error kind.
    pub fn error(&self, error: ValidationErrorEnum) -> (r: VResult<()>)
        ensures
            r == Err::<(), ValidationError>(ValidationError { kind: error }),
    {
        Err(ValidationError { kind: error })
    }

    /// Looks up a local's type.
    pub fn locals(&self, x: u32) -> (r: VResult<ValType>)
        ensures
            r == spec_ctx_locals(self@, x),
    {
        if (x as usize) < self.locals.len() {
            Ok(self.locals[x as usize])
        } else {
            Err(ValidationError { kind: ValidationErrorEnum::LocalIdxOutOfRange })
        }
    }

    /// Looks up a global's type.
    pub fn globals(&self, x: u32) -> (r: VResult<GlobalType>)
        ensures
            r == spec_ctx_globals(self@, x),
    {
        if (x as usize) < self.globals.len() {
            Ok(self.globals[x as usize])
        } else {
            Err(ValidationError { kind: ValidationErrorEnum::GlobalIdxOutOfRange })
        }
    }

    /// Looks up a memory's type.
    pub fn mems(&self, x: u32) -> (r: VResult<MemType>)
        ensures
            r == spec_ctx_mems(self@, x),
    {
        if (x as usize) < self.mems.len() {
            Ok(self.mems[x as usize])
        } else {
            Err(ValidationError { kind: ValidationErrorEnum::MemIdxOutOfRange })
        }
    }

    /// Looks up a table's type.
    pub fn tables(&self, x: u32) -> (r: VResult<TableType>)
        ensures
            r == spec_ctx_tables(self@, x),
    {
        if (x as usize) < self.tables.len() {
            Ok(self.tables[x as usize])
        } else {
            Err(ValidationError { kind: ValidationErrorEnum::TableIdxOutOfRange })
        }
    }

    /// Looks up a label's result type.
    pub fn labels(&self, x: u32) -> (r: VResult<ResultType>)
        ensures
            r == spec_ctx_labels(self@, x),
    {
        if (x as usize) < self.labels.len() {
            Ok(self.labels[x as usize])
        } else {
            Err(ValidationError { kind: ValidationErrorEnum::LabelIdxOutOfRange })
        }
    }

    /// Looks up the return type.
    pub fn return_(&self) -> (r: VResult<ResultType>)
        ensures
            r == spec_ctx_return(self@),
    {
        match self.return_ {
            Some(rt) => Ok(rt),
            None => Err(ValidationError { kind: ValidationErrorEnum::ReturnTypeAbsent }),
        }
    }

    /// Looks up a function's type.
    pub fn funcs(&self, x: u32) -> (r: VResult<FuncType>)
        ensures
            functype_result_matches(r, spec_ctx_funcs(self@, x)),
    {
        if (x as usize) < self.funcs.len() {
            Ok(crate::types::dup_functype(&self.funcs[x as usize]))
        } else {
            Err(ValidationError { kind: ValidationErrorEnum::FuncIdxOutOfRange })
        }
    }

    /// Looks up an entry of the type table.
    pub fn types(&self, x: u32) -> (r: VResult<FuncType>)
        ensures
            functype_result_matches(r, spec_ctx_types(self@, x)),
    {
        if (x as usize) < self.types.len() {
            Ok(crate::types::dup_functype(&self.types[x as usize]))
        } else {
            Err(ValidationError { kind: ValidationErrorEnum::TypeIdxOutOfRange })
        }
    }

    /// Builds a child context carrying the same information.
    pub fn delegate(&self) -> (r: Ctx)
        ensures
            r@ == self@,
    {
        let r = Ctx {
            types: dup_functypes(&self.types),
            funcs: dup_functypes(&self.funcs),
            tables: dup_tabletypes(&self.tables),
            mems: dup_memtypes(&self.mems),
            globals: dup_globaltypes(&self.globals),
            locals: crate::types::dup_valtypes(&self.locals),
            labels: dup_resulttypes(&self.labels),
            return_: self.return_,
        };
        proof {
            assert(r@.types =~= self@.types);
            assert(r@.funcs =~= self@.funcs);
            assert(r@ =~= self@);
        }
        r
    }

    /// Builds a child context with `resulttype` pushed as the innermost
    /// label.
    pub fn with_prepended_label(&self, resulttype: ResultType) -> (r: Ctx)
        ensures
            r@ == (CtxV { labels: seq![resulttype] + self@.labels, ..self@ }),
    {
        let mut r = self.delegate();
        let mut labels: Vec<ResultType> = Vec::new();
        labels.push(resulttype);
        let mut i: usize = 0;
        while i < self.labels.len()
            invariant
                i <= self.labels@.len(),
                labels@ == seq![resulttype] + self@.labels.subrange(0, i as int),
            decreases self.labels@.len() - i,
        {
            labels.push(self.labels[i]);
            proof {
                assert(labels@ =~= seq![resulttype] + self@.labels.subrange(0, i as int + 1));
            }
            i = i + 1;
        }
        r.labels = labels;
        proof {
            assert(r@.labels =~= seq![resulttype] + self@.labels);
            assert(r@ =~= (CtxV { labels: seq![resulttype] + self@.labels, ..self@ }));
        }
        r
    }
}

/// Copies a vector of function types.
pub fn dup_functypes(v: &Vec<FuncType>) -> (r: Vec<FuncType>)
    ensures
        r@.len() == v@.len(),
        forall|i: int| 0 <= i < v@.len() ==> #[trigger] r@[i]@ == v@[i]@,
{
    let mut out: Vec<FuncType> = Vec::new();
    let mut i: usize = 0;
    while i < v.len()
        invariant
            i <= v@.len(),
            out@.len() == i,
            forall|j: int| 0 <= j < i ==> #[trigger] out@[j]@ == v@[j]@,
        decreases v@.len() - i,
    {
        out.push(crate::types::dup_functype(&v[i]));
        i = i + 1;
    }
    out
}

/// Copies a vector of table types.
pub fn dup_tabletypes(v: &Vec<TableType>) -> (r: Vec<TableType>)
    ensures
        r@ == v@,
{
    let mut out: Vec<TableType> = Vec::new();
    let mut i: usize = 0;
    while i < v.len()
        invariant
            i <= v@.len(),
            out@ == v@.subrange(0, i as int),
        decreases v@.len() - i,
    {
        out.push(v[i]);
        i = i + 1;
    }
    proof {
        assert(out@ == v@);
    }
    out
}

/// Copies a vector of memory types.
pub fn dup_memtypes(v: &Vec<MemType>) -> (r: Vec<MemType>)
    ensures
        r@ == v@,
{
    let mut out: Vec<MemType> = Vec::new();
    let mut i: usize = 0;
    while i < v.len()
        invariant
            i <= v@.len(),
            out@ == v@.subrange(0, i as int),
        decreases v@.len() - i,
    {
        out.push(v[i]);
        i = i + 1;
    }
    proof {
        assert(out@ == v@);
    }
    out
}

/// Copies a vector of global types.
pub fn dup_globaltypes(v: &Vec<GlobalType>) -> (r: Vec<GlobalType>)
    ensures
        r@ == v@,
{
    let mut out: Vec<GlobalType> = Vec::new();
    let mut i: usize = 0;
    while i < v.len()
        invariant
            i <= v@.len(),
            out@ == v@.subrange(0, i as int),
        decreases v@.len() - i,
    {
        out.push(v[i]);
        i = i + 1;
    }
    proof {
        assert(out@ == v@);
    }
    out
}

/// Copies a vector of result types.
pub fn dup_resulttypes(v: &Vec<ResultType>) -> (r: Vec<ResultType>)
    ensures
        r@ == v@,
{
    let mut out: Vec<ResultType> = Vec::new();
    let mut i: usize = 0;
    while i < v.len()
        invariant
            i <= v@.len(),
            out@ == v@.subrange(0, i as int),
        decreases v@.len() - i,
    {
        out.push(v[i]);
        i = i + 1;
    }
    proof {
        assert(out@ == v@);
    }
    out
}

/// First binding of variable `a` in the side table, if any.
pub open spec fn spec_sub_lookup(sub: Seq<(char, AnyValType)>, a: char) -> Option<AnyValType>
    decreases sub.len(),
{
    if sub.len() == 0 {
        None
    } else if sub.last().0 == a {
        Some(sub.last().1)
    } else {
        spec_sub_lookup(sub.drop_last(), a)
    }
}

/// Looks up a variable binding in the side table.
pub fn sub_lookup(sub: &Vec<(char, AnyValType)>, a: char) -> (r: Option<AnyValType>)
    ensures
        r == spec_sub_lookup(sub@, a),
{
    let mut i: usize = sub.len();
    proof {
        assert(sub@.subrange(0, sub@.len() as int) =~= sub@);
    }
    while i > 0
        invariant
            i <= sub@.len(),
            spec_sub_lookup(sub@, a) == spec_sub_lookup(sub@.subrange(0, i as int), a),
        decreases i,
    {
        i = i - 1;
        proof {
            assert(sub@.subrange(0, i as int + 1).last() == sub@[i as int]);
            assert(sub@.subrange(0, i as int + 1).drop_last() =~= sub@.subrange(0, i as int));
        }
        if sub[i].0 == a {
            return Some(sub[i].1);
        }
    }
    proof {
        assert(sub@.subrange(0, 0) =~= Seq::<(char, AnyValType)>::empty());
    }
    None
}

/// One step of matching the produced stack shape `stack` against the types
/// `need` an instruction consumes, from the top down. Rigid variables in
/// `need` bind through the side table; a sequence variable in `need` absorbs
/// the whole remaining stack, and one on the stack absorbs all remaining
/// needs. Returns the unconsumed stack prefix and the extended side table.
pub open spec fn spec_consume(
    stack: Seq<AnyValType>,
    need: Seq<AnyValType>,
    sub: Seq<(char, AnyValType)>,
) -> Result<(Seq<AnyValType>, Seq<(char, AnyValType)>), ValidationError>
    decreases need.len(),
{
    if need.len() == 0 {
        Ok((stack, sub))
    } else {
        let nd = need.last();
        match nd {
            AnyValType::AnySeq(_) => Ok((Seq::empty(), sub)),
            AnyValType::AnyOpt(_) => Err(
                ValidationError { kind: ValidationErrorEnum::InstrSequenceUnificationFailed },
            ),
            _ => {
                if stack.len() == 0 {
                    Err(
                        ValidationError {
                            kind: ValidationErrorEnum::InstrSequenceUnificationFailed,
                        },
                    )
                } else {
                    let hv = stack.last();
                    if hv is AnySeq {
                        Ok((stack, sub))
                    } else {
                        match nd {
                            AnyValType::Any(a) => match spec_sub_lookup(sub, a) {
                                None => spec_consume(
                                    stack.drop_last(),
                                    need.drop_last(),
                                    sub.push((a, hv)),
                                ),
                                Some(v) => {
                                    if is_concrete(v) && is_concrete(hv) && v != hv {
                                        Err(
                                            ValidationError {
                                                kind:
                                                    ValidationErrorEnum::InstrSequenceUnificationFailed,
                                            },
                                        )
                                    } else {
                                        spec_consume(stack.drop_last(), need.drop_last(), sub)
                                    }
                                },
                            },
                            _ => {
                                // nd is concrete
                                if hv == nd || hv is Any {
                                    spec_consume(stack.drop_last(), need.drop_last(), sub)
                                } else {
                                    Err(
                                        ValidationError {
                                            kind:
                                                ValidationErrorEnum::InstrSequenceUnificationFailed,
                                        },
                                    )
                                }
                            },
                        }
                    }
                }
            },
        }
    }
}

/// Matches the top `ni` needs against the top `si` stack entries; returns
/// how much stack is left and the extended side table.
pub(crate) fn consume_rec(
    t2: &Vec<AnyValType>,
    si: usize,
    t: &Vec<AnyValType>,
    ni: usize,
    sub: Vec<(char, AnyValType)>,
) -> (r: Result<(usize, Vec<(char, AnyValType)>), ValidationError>)
    requires
        si <= t2@.len(),
        ni <= t@.len(),
    ensures
        r matches Ok((si2, sub2)) ==> si2 <= si && spec_consume(
            t2@.subrange(0, si as int),
            t@.subrange(0, ni as int),
            sub@,
        ) == Ok::<_, ValidationError>((t2@.subrange(0, si2 as int), sub2@)),
        r matches Err(e) ==> spec_consume(
            t2@.subrange(0, si as int),
            t@.subrange(0, ni as int),
            sub@,
        ) == Err::<(Seq<AnyValType>, Seq<(char, AnyValType)>), _>(e),
    decreases ni,
{
    let ghost gstack = t2@.subrange(0, si as int);
    let ghost gneed = t@.subrange(0, ni as int);
    if ni == 0 {
        proof {
            assert(gneed.len() == 0);
        }
        return Ok((si, sub));
    }
    proof {
        assert(gneed.last() == t@[ni as int - 1]);
        assert(gneed.drop_last() =~= t@.subrange(0, ni as int - 1));
    }
    let nd = t[ni - 1];
    match nd {
        AnyValType::AnySeq(_) => {
            proof {
                assert(t2@.subrange(0, 0) =~= Seq::<AnyValType>::empty());
            }
            Ok((0, sub))
        },
        AnyValType::AnyOpt(_) => Err(
            ValidationError { kind: ValidationErrorEnum::InstrSequenceUnificationFailed },
        ),
        _ => {
            if si == 0 {
                proof {
                    assert(gstack.len() == 0);
                }
                return Err(
                    ValidationError { kind: ValidationErrorEnum::InstrSequenceUnificationFailed },
                );
            }
            proof {
                assert(gstack.last() == t2@[si as int - 1]);
                assert(gstack.drop_last() =~= t2@.subrange(0, si as int - 1));
            }
            let hv = t2[si - 1];
            if let AnyValType::AnySeq(_) = hv {
                return Ok((si, sub));
            }
            match nd {
                AnyValType::Any(a) => match sub_lookup(&sub, a) {
                    None => {
                        let mut sub2 = sub;
                        sub2.push((a, hv));
                        consume_rec(t2, si - 1, t, ni - 1, sub2)
                    },
                    Some(v) => {
                        let v_conc = match v {
                            AnyValType::I32 | AnyValType::I64 | AnyValType::F32
                                | AnyValType::F64 => true,
                            _ => false,
                        };
                        let h_conc = match hv {
                            AnyValType::I32 | AnyValType::I64 | AnyValType::F32
                                | AnyValType::F64 => true,
                            _ => false,
                        };
                        if v_conc && h_conc && v != hv {
                            Err(
                                ValidationError {
                                    kind: ValidationErrorEnum::InstrSequenceUnificationFailed,
                                },
                            )
                        } else {
                            consume_rec(t2, si - 1, t, ni - 1, sub)
                        }
                    },
                },
                _ => {
                    let is_any = matches!(hv, AnyValType::Any(_));
                    if hv == nd || is_any {
                        consume_rec(t2, si - 1, t, ni - 1, sub)
                    } else {
                        Err(
                            ValidationError {
                                kind: ValidationErrorEnum::InstrSequenceUnificationFailed,
                            },
                        )
                    }
                },
            }
        },
    }
}

/// The unconsumed stack prefix after matching `need` against `stack`,
/// starting from an empty side table.
pub open spec fn spec_find_ty_prefix(
    stack: Seq<AnyValType>,
    need: Seq<AnyValType>,
) -> Result<Seq<AnyValType>, ValidationError> {
    match spec_consume(stack, need, Seq::empty()) {
        Ok((t0, _)) => Ok(t0),
        Err(e) => Err(e),
    }
}

/// Whether an executable prefix result mirrors a mathematical one.
pub open spec fn anyvec_result_matches(
    r: VResult<Vec<AnyValType>>,
    s: Result<Seq<AnyValType>, ValidationError>,
) -> bool {
    match (r, s) {
        (Ok(a), Ok(b)) => a@ == b,
        (Err(a), Err(b)) => a == b,
        _ => false,
    }
}

/// A variable resolved through the side table, other types unchanged.
pub open spec fn spec_resolve(sub: Seq<(char, AnyValType)>, v: AnyValType) -> AnyValType {
    match v {
        AnyValType::Any(a) => match spec_sub_lookup(sub, a) {
            Some(b) => b,
            None => v,
        },
        _ => v,
    }
}

/// The produced types of an instruction with the side table applied.
pub open spec fn spec_apply_sub(sub: Seq<(char, AnyValType)>, tys: Seq<AnyValType>) -> Seq<
    AnyValType,
> {
    tys.map_values(|v: AnyValType| spec_resolve(sub, v))
}

/// Applies the side table to produced types.
pub fn apply_sub(sub: &Vec<(char, AnyValType)>, tys: &Vec<AnyValType>) -> (r: Vec<AnyValType>)
    ensures
        r@ == spec_apply_sub(sub@, tys@),
{
    let mut out: Vec<AnyValType> = Vec::new();
    let mut i: usize = 0;
    while i < tys.len()
        invariant
            i <= tys@.len(),
            out@ == spec_apply_sub(sub@, tys@.subrange(0, i as int)),
        decreases tys@.len() - i,
    {
        let v = tys[i];
        let rv = match v {
            AnyValType::Any(a) => match sub_lookup(sub, a) {
                Some(b) => b,
                None => v,
            },
            _ => v,
        };
        out.push(rv);
        proof {
            assert(out@ =~= spec_apply_sub(sub@, tys@.subrange(0, i as int + 1)));
        }
        i = i + 1;
    }
    proof {
        assert(tys@.subrange(0, tys@.len() as int) =~= tys@);
    }
    out
}

/// Whether every entry of a stack shape is a sequence variable, so that the
/// whole shape can instantiate to the empty stack.
pub open spec fn all_seq_vars(s: Seq<AnyValType>) -> bool {
    forall|i: int| 0 <= i < s.len() ==> (#[trigger] s[i]) is AnySeq
}

/// Matching of a computed result stack against an expected one, from the top
/// down. A sequence variable on the computed side absorbs the remaining
/// expectation unless it was forced empty by the argument side (`argseq`);
/// an optional variable on the expected side takes one value; rigid
/// variables match anything.
pub open spec fn spec_match_results(
    have: Seq<AnyValType>,
    want: Seq<AnyValType>,
    argseq: Seq<AnyValType>,
) -> bool
    decreases have.len() + want.len(),
{
    if want.len() == 0 {
        all_seq_vars(have)
    } else if have.len() == 0 {
        want.last() is AnyOpt && spec_match_results(have, want.drop_last(), argseq)
    } else {
        let h = have.last();
        match h {
            AnyValType::AnySeq(b) => {
                if argseq.contains(AnyValType::AnySeq(b)) {
                    spec_match_results(have.drop_last(), want, argseq)
                } else {
                    true
                }
            },
            _ => {
                let w = want.last();
                match w {
                    AnyValType::AnyOpt(_) => spec_match_results(
                        have.drop_last(),
                        want.drop_last(),
                        argseq,
                    ),
                    AnyValType::Any(_) | AnyValType::AnySeq(_) => false,
                    _ => (h == w || h is Any) && spec_match_results(
                        have.drop_last(),
                        want.drop_last(),
                        argseq,
                    ),
                }
            },
        }
    }
}

/// Whether a computed instruction-sequence type satisfies an expected type
/// whose argument side is empty: the computed argument side must be all
/// sequence variables (instantiated to the empty stack), and the computed
/// results must match the expected ones with those variables forced empty.
pub open spec fn spec_is_valid_with(ty: AnyFuncTypeV, want: AnyFuncTypeV) -> VResult<()> {
    if want.args.len() != 0 {
        Err(ValidationError { kind: ValidationErrorEnum::ExprTypeMismatch })
    } else if !all_seq_vars(ty.args) {
        Err(ValidationError { kind: ValidationErrorEnum::ExprTypeMismatch })
    } else if spec_match_results(ty.results, want.results, ty.args) {
        Ok(())
    } else {
        Err(ValidationError { kind: ValidationErrorEnum::ExprTypeMismatch })
    }
}

/// Whether `v` holds the sequence variable `b`.
fn contains_seqvar(v: &Vec<AnyValType>, b: char) -> (r: bool)
    ensures
        r == v@.contains(AnyValType::AnySeq(b)),
{
    let mut i: usize = 0;
    while i < v.len()
        invariant
            i <= v@.len(),
            forall|j: int| 0 <= j < i ==> v@[j] != AnyValType::AnySeq(b),
        decreases v@.len() - i,
    {
        if v[i] == AnyValType::AnySeq(b) {
            proof {
                assert(v@.contains(AnyValType::AnySeq(b)));
            }
            return true;
        }
        i = i + 1;
    }
    proof {
        assert(!v@.contains(AnyValType::AnySeq(b)));
    }
    false
}

/// Matches the top `hi` computed results against the top `wi` expected ones.
fn match_results_rec(
    have: &Vec<AnyValType>,
    hi: usize,
    want: &Vec<AnyValType>,
    wi: usize,
    argseq: &Vec<AnyValType>,
) -> (r: bool)
    requires
        hi <= have@.len(),
        wi <= want@.len(),
    ensures
        r == spec_match_results(
            have@.subrange(0, hi as int),
            want@.subrange(0, wi as int),
            argseq@,
        ),
    decreases hi + wi,
{
    let ghost ghave = have@.subrange(0, hi as int);
    let ghost gwant = want@.subrange(0, wi as int);
    if wi == 0 {
        proof {
            assert(gwant.len() == 0);
            assert(spec_match_results(ghave, gwant, argseq@) == all_seq_vars(ghave));
        }
        let mut i: usize = 0;
        while i < hi
            invariant
                i <= hi,
                hi <= have@.len(),
                wi <= want@.len(),
                spec_match_results(
                    have@.subrange(0, hi as int),
                    want@.subrange(0, wi as int),
                    argseq@,
                ) == all_seq_vars(have@.subrange(0, hi as int)),
                forall|j: int| 0 <= j < i ==> (#[trigger] have@[j]) is AnySeq,
            decreases hi - i,
        {
            let is_seq = matches!(have[i], AnyValType::AnySeq(_));
            if !is_seq {
                proof {
                    let pre = have@.subrange(0, hi as int);
                    assert(pre[i as int] == have@[i as int]);
                    assert(!all_seq_vars(pre));
                }
                return false;
            }
            i = i + 1;
        }
        proof {
            assert forall|j: int| 0 <= j < ghave.len() implies (#[trigger] ghave[j]) is AnySeq by {
                assert(ghave[j] == have@[j]);
            }
        }
        return true;
    }
    proof {
        assert(gwant.last() == want@[wi as int - 1]);
        assert(gwant.drop_last() =~= want@.subrange(0, wi as int - 1));
    }
    if hi == 0 {
        let w_opt = matches!(want[wi - 1], AnyValType::AnyOpt(_));
        if w_opt {
            return match_results_rec(have, hi, want, wi - 1, argseq);
        }
        return false;
    }
    proof {
        assert(ghave.last() == have@[hi as int - 1]);
        assert(ghave.drop_last() =~= have@.subrange(0, hi as int - 1));
    }
    let h = have[hi - 1];
    if let AnyValType::AnySeq(b) = h {
        if contains_seqvar(argseq, b) {
            return match_results_rec(have, hi - 1, want, wi, argseq);
        }
        return true;
    }
    let w = want[wi - 1];
    match w {
        AnyValType::AnyOpt(_) => match_results_rec(have, hi - 1, want, wi - 1, argseq),
        AnyValType::Any(_) | AnyValType::AnySeq(_) => false,
        _ => {
            let h_any = matches!(h, AnyValType::Any(_));
            if h == w || h_any {
                match_results_rec(have, hi - 1, want, wi - 1, argseq)
            } else {
                false
            }
        },
    }
}

/// The type of an expression read off a result stack shape: the top entry
/// if it is a value, and nothing if the stack can be empty.
pub open spec fn spec_any_vec_to_option(s: Seq<AnyValType>) -> Option<AnyValType> {
    if s.len() > 0 && !(s.last() is AnySeq) {
        Some(s.last())
    } else {
        None
    }
}

impl Ctx {
    /// Checks that a computed instruction-sequence type satisfies an
    /// expected type with an empty argument side.
    pub fn is_valid_with(&self, ty: &AnyFuncType, valid_type: &AnyFuncType) -> (r: VResult<()>)
        ensures
            r == spec_is_valid_with(ty@, valid_type@),
    {
        if valid_type.args.len() != 0 {
            return Err(ValidationError { kind: ValidationErrorEnum::ExprTypeMismatch });
        }
        let mut i: usize = 0;
        while i < ty.args.len()
            invariant
                i <= ty.args@.len(),
                forall|j: int| 0 <= j < i ==> (#[trigger] ty.args@[j]) is AnySeq,
            decreases ty.args@.len() - i,
        {
            let is_seq = matches!(ty.args[i], AnyValType::AnySeq(_));
            if !is_seq {
                proof {
                    assert(!all_seq_vars(ty.args@));
                }
                return Err(ValidationError { kind: ValidationErrorEnum::ExprTypeMismatch });
            }
            i = i + 1;
        }
        proof {
            assert(all_seq_vars(ty.args@));
        }
        let ok = match_results_rec(&ty.results, ty.results.len(), &valid_type.results,
            valid_type.results.len(), &ty.args);
        proof {
            assert(ty.results@.subrange(0, ty.results@.len() as int) =~= ty.results@);
            assert(valid_type.results@.subrange(0, valid_type.results@.len() as int)
                =~= valid_type.results@);
        }
        if ok {
            Ok(())
        } else {
            Err(ValidationError { kind: ValidationErrorEnum::ExprTypeMismatch })
        }
    }

    /// Computes the unconsumed stack prefix after an instruction's consumed
    /// types are matched against the current stack shape.
    pub fn find_ty_prefix(&self, t2: &Vec<AnyValType>, t: &Vec<AnyValType>) -> (r: VResult<
        Vec<AnyValType>,
    >)
        ensures
            anyvec_result_matches(r, spec_find_ty_prefix(t2@, t@)),
    {
        match consume_rec(t2, t2.len(), t, t.len(), Vec::new()) {
            Ok((si2, _)) => {
                proof {
                    assert(t2@.subrange(0, t2@.len() as int) =~= t2@);
                    assert(t@.subrange(0, t@.len() as int) =~= t@);
                }
                let mut out: Vec<AnyValType> = Vec::new();
                let mut i: usize = 0;
                while i < si2
                    invariant
                        i <= si2,
                        si2 <= t2@.len(),
                        out@ == t2@.subrange(0, i as int),
                    decreases si2 - i,
                {
                    out.push(t2[i]);
                    proof {
                        assert(out@ =~= t2@.subrange(0, i as int + 1));
                    }
                    i = i + 1;
                }
                Ok(out)
            },
            Err(e) => {
                proof {
                    assert(t2@.subrange(0, t2@.len() as int) =~= t2@);
                    assert(t@.subrange(0, t@.len() as int) =~= t@);
                }
                Err(e)
            },
        }
    }

    /// Reads the type of an expression off a result stack shape.
    pub fn any_vec_to_option(&self, vec: Vec<AnyValType>) -> (r: Option<AnyValType>)
        ensures
            r == spec_any_vec_to_option(vec@),
    {
        if vec.len() == 0 {
            return None;
        }
        let last = vec[vec.len() - 1];
        if let AnyValType::AnySeq(_) = last {
            None
        } else {
            Some(last)
        }
    }
}

} // verus!

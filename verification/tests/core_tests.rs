use wasm_core::types::{ValType, Limits, FuncType, TableType, MemType, GlobalType, Mut, ElemType,
    Val, ExternType};
use wasm_core::ast::{Instr, Expr, Func, Module, Table, Export, ExportDesc};
use wasm_core::runtime::{new_store, HostFunc, ExternVal, TableInst, MemInst, FuncElem};
use wasm_core::import_matching;
use wasm_core::external_typing;
use wasm_core::allocation;
use wasm_core::validation::{Ctx, AnyValType, AnyFuncType, ValidationErrorEnum};
use wasm_core::validate;
use wasm_core::invocation::{self, InvokeError};
use wasm_core::instantiation::{self, InstantiationError};
use wasm_core::ast::{Import, ImportDesc, Global};

#[test]
fn limits_match_reflexive_and_bounds() {
    let a = Limits { min: 3, max: Some(7) };
    assert!(import_matching::limits(&a, &a));
    let no_max = Limits { min: 10, max: None };
    let with_max = Limits { min: 1, max: Some(20) };
    // an absent upper bound never satisfies a required one
    assert!(!import_matching::limits(&no_max, &with_max));
    // a present, smaller-or-equal upper bound does
    assert!(import_matching::limits(&Limits { min: 5, max: Some(10) }, &with_max));
    // min below the requirement fails
    assert!(!import_matching::limits(&Limits { min: 0, max: Some(10) }, &Limits {
        min: 1,
        max: Some(10),
    }));
}

#[test]
fn extern_type_matching() {
    let f1 = ExternType::Func(FuncType { args: vec![ValType::I32], results: vec![] });
    let f2 = ExternType::Func(FuncType { args: vec![ValType::I32], results: vec![] });
    let f3 = ExternType::Func(FuncType { args: vec![ValType::I64], results: vec![] });
    assert!(import_matching::extern_type(&f1, &f2));
    assert!(!import_matching::extern_type(&f1, &f3));
    let t1 = ExternType::Table(TableType {
        limits: Limits { min: 2, max: Some(2) },
        elemtype: ElemType::AnyFunc,
    });
    let t2 = ExternType::Table(TableType {
        limits: Limits { min: 1, max: Some(4) },
        elemtype: ElemType::AnyFunc,
    });
    assert!(import_matching::extern_type(&t1, &t2));
    // kinds never match across
    assert!(!import_matching::extern_type(&f1, &t1));
    let g1 = ExternType::Global(GlobalType { mutability: Mut::Const, valtype: ValType::I32 });
    let g2 = ExternType::Global(GlobalType { mutability: Mut::Var, valtype: ValType::I32 });
    assert!(!import_matching::extern_type(&g1, &g2));
}

#[test]
fn alloc_function_returns_next_addr() {
    let mut s = new_store();
    let a0 = allocation::alloc_host_function(&mut s, HostFunc { id: 0 }, FuncType {
        args: vec![],
        results: vec![],
    });
    let a1 = allocation::alloc_host_function(&mut s, HostFunc { id: 1 }, FuncType {
        args: vec![ValType::I32],
        results: vec![],
    });
    assert_eq!(a0, 0);
    assert_eq!(a1, 1);
    assert_eq!(s.funcs.len(), 2);
}

#[test]
fn alloc_table_and_mem_sizes() {
    let mut s = new_store();
    let ta = allocation::alloc_table(&mut s, &TableType {
        limits: Limits { min: 3, max: Some(5) },
        elemtype: ElemType::AnyFunc,
    });
    assert_eq!(ta, 0);
    assert_eq!(s.tables[0].elem.len(), 3);
    assert!(s.tables[0].elem.iter().all(|e| e.0.is_none()));
    let ma = allocation::alloc_mem(&mut s, &MemType { limits: Limits { min: 1, max: Some(2) } });
    assert_eq!(ma, 0);
    assert_eq!(s.mems[0].data.len(), 65536);
    assert!(s.mems[0].data.iter().all(|b| *b == 0));
}

#[test]
fn grow_memory_by_exact_pages() {
    let mut m = MemInst { data: vec![0u8; 65536], max: Some(3) };
    assert!(allocation::grow_memory_by(&mut m, 1).is_ok());
    assert_eq!(m.data.len(), 2 * 65536);
    // beyond max fails and leaves the memory untouched
    let r = allocation::grow_memory_by(&mut m, 2);
    assert!(matches!(r, Err(allocation::AllocError::AllocatingMemBeyondMaxLimit)));
    assert_eq!(m.data.len(), 2 * 65536);
    // up to max succeeds
    assert!(allocation::grow_memory_by(&mut m, 1).is_ok());
    assert_eq!(m.data.len(), 3 * 65536);
}

#[test]
fn grow_table_beyond_max_fails_atomically() {
    let mut t = TableInst { elem: vec![FuncElem(None); 2], max: Some(2) };
    let r = allocation::grow_table_by(&mut t, 1);
    assert!(matches!(r, Err(allocation::AllocError::AllocatingTableBeyondMaxLimit)));
    assert_eq!(t.elem.len(), 2);
    let mut t2 = TableInst { elem: vec![FuncElem(None); 2], max: None };
    assert!(allocation::grow_table_by(&mut t2, 4).is_ok());
    assert_eq!(t2.elem.len(), 6);
}

#[test]
fn external_typing_reads_current_sizes() {
    let mut s = new_store();
    allocation::alloc_table(&mut s, &TableType {
        limits: Limits { min: 2, max: Some(9) },
        elemtype: ElemType::AnyFunc,
    });
    match external_typing::table(&s, 0) {
        ExternType::Table(tt) => {
            assert_eq!(tt.limits.min, 2);
            assert_eq!(tt.limits.max, Some(9));
        },
        _ => panic!("wrong extern type kind"),
    }
    allocation::alloc_global(&mut s, &GlobalType { mutability: Mut::Const, valtype: ValType::I32 },
        Val::I32(7));
    match external_typing::global(&s, 0) {
        ExternType::Global(gt) => {
            assert_eq!(gt.valtype, ValType::I32);
            assert_eq!(gt.mutability, Mut::Const);
        },
        _ => panic!("wrong extern type kind"),
    }
}

#[test]
fn alloc_module_addresses_and_exports() {
    let mut s = new_store();
    // a previously allocated host function to import
    let ha = allocation::alloc_host_function(&mut s, HostFunc { id: 7 }, FuncType {
        args: vec![],
        results: vec![],
    });
    let m = Module {
        types: vec![FuncType { args: vec![], results: vec![] }],
        funcs: vec![Func { type_: 0, locals: vec![], body: Expr { body: vec![] } }],
        tables: vec![Table {
            type_: TableType {
                limits: Limits { min: 1, max: Some(1) },
                elemtype: ElemType::AnyFunc,
            },
        }],
        mems: vec![],
        globals: vec![],
        elem: vec![],
        data: vec![],
        start: None,
        imports: vec![],
        exports: vec![Export { name: b"f".to_vec(), desc: ExportDesc::Func(1) }],
    };
    let evs = vec![ExternVal::Func(ha)];
    let vals = vec![];
    let addr = allocation::alloc_module(&mut s, &m, &evs, &vals);
    assert_eq!(addr, 0);
    let inst = &s.modules[0];
    // imported address first, then the newly allocated one
    assert_eq!(inst.funcaddrs, vec![ha, 1]);
    assert_eq!(inst.tableaddrs, vec![0]);
    assert_eq!(inst.exports.len(), 1);
    assert_eq!(inst.exports[0].name, b"f".to_vec());
    assert_eq!(inst.exports[0].value, ExternVal::Func(1));
    // a second allocation of the same module yields a distinct address and
    // an address vector differing only in the non-imported tail
    let addr2 = allocation::alloc_module(&mut s, &m, &evs, &vals);
    assert_ne!(addr, addr2);
    let inst2 = &s.modules[1];
    assert_eq!(inst2.funcaddrs[0], ha);
    assert_ne!(inst2.funcaddrs[1], 1);
}

#[test]
fn select_types_as_i32() {
    let c = Ctx::new();
    let seq = vec![
        Instr::TConst(Val::I32(1)),
        Instr::TConst(Val::I32(2)),
        Instr::TConst(Val::I32(0)),
        Instr::Select,
    ];
    let ty = validate::instruction_sequence(&c, &seq).unwrap();
    // net effect: [] -> [i32]
    let expected = AnyFuncType { args: vec![], results: vec![AnyValType::I32] };
    assert!(c.is_valid_with(&ty, &expected).is_ok());
    assert_eq!(c.any_vec_to_option(ty.results), Some(AnyValType::I32));
}

#[test]
fn br_table_label_type_uniformity() {
    let mut c = Ctx::new();
    // label 0: [], label 1: [i32], label 2: []
    c.labels = vec![None, Some(ValType::I32), None];
    let r = validate::instruction(&c, &Instr::BrTable(vec![0, 1], 2));
    assert!(r.is_err());
    assert_eq!(r.unwrap_err().kind, ValidationErrorEnum::InstrBrTableNotSameLabelType);
    let ok = validate::instruction(&c, &Instr::BrTable(vec![0, 2], 0));
    assert!(ok.is_ok());
}

#[test]
fn limits_validation() {
    let c = Ctx::new();
    assert!(validate::limit(&c, &Limits { min: 2, max: Some(1) }).is_err());
    assert_eq!(
        validate::limit(&c, &Limits { min: 2, max: Some(1) }).unwrap_err().kind,
        ValidationErrorEnum::LimitMaxSmallerMin
    );
    assert!(validate::limit(&c, &Limits { min: 2, max: None }).is_ok());
    assert!(validate::limit(&c, &Limits { min: 2, max: Some(2) }).is_ok());
    let ft = FuncType { args: vec![], results: vec![ValType::I32, ValType::I32] };
    assert_eq!(
        validate::function_type(&c, &ft).unwrap_err().kind,
        ValidationErrorEnum::FunctionTypeResultArityGreaterOne
    );
}

#[test]
fn set_global_requires_var() {
    let mut c = Ctx::new();
    c.globals = vec![GlobalType { mutability: Mut::Const, valtype: ValType::I32 }];
    let r = validate::instruction(&c, &Instr::SetGlobal(0));
    assert_eq!(r.unwrap_err().kind, ValidationErrorEnum::InstrSetGlobalNotVar);
    c.globals = vec![GlobalType { mutability: Mut::Var, valtype: ValType::I32 }];
    assert!(validate::instruction(&c, &Instr::SetGlobal(0)).is_ok());
}

#[test]
fn load_alignment_checked() {
    let mut c = Ctx::new();
    c.mems = vec![MemType { limits: Limits { min: 1, max: None } }];
    let ok = validate::instruction(&c, &Instr::TLoad(ValType::I32, wasm_core::ast::Memarg {
        align: 2,
        offset: 0,
    }));
    assert!(ok.is_ok());
    let over = validate::instruction(&c, &Instr::TLoad(ValType::I32, wasm_core::ast::Memarg {
        align: 3,
        offset: 0,
    }));
    assert_eq!(over.unwrap_err().kind, ValidationErrorEnum::InstrLoadOveraligned);
    // without a memory the access is rejected
    let c2 = Ctx::new();
    let nomem = validate::instruction(&c2, &Instr::TLoad(ValType::I32, wasm_core::ast::Memarg {
        align: 0,
        offset: 0,
    }));
    assert_eq!(nomem.unwrap_err().kind, ValidationErrorEnum::MemIdxOutOfRange);
}

#[test]
fn block_body_must_produce_result() {
    let mut c = Ctx::new();
    c.mems = vec![];
    // a block declaring [i32] whose body is empty fails
    let bad = validate::instruction(&c, &Instr::Block(Some(ValType::I32), vec![]));
    assert!(bad.is_err());
    // a block declaring [i32] whose body pushes one i32 succeeds
    let good = validate::instruction(&c, &Instr::Block(Some(ValType::I32), vec![Instr::TConst(
        Val::I32(5),
    )]));
    assert!(good.is_ok());
    // unreachable makes any declared result acceptable
    let poly = validate::instruction(&c, &Instr::Block(Some(ValType::I32), vec![
        Instr::Unreachable,
    ]));
    assert!(poly.is_ok());
}

#[test]
fn store_pop_aux_removes_last_module() {
    let mut s = new_store();
    let m = Module {
        types: vec![],
        funcs: vec![],
        tables: vec![],
        mems: vec![],
        globals: vec![],
        elem: vec![],
        data: vec![],
        start: None,
        imports: vec![],
        exports: vec![],
    };
    let evs = vec![];
    let vals = vec![];
    allocation::alloc_module(&mut s, &m, &evs, &vals);
    assert_eq!(s.modules.len(), 1);
    s.pop_aux();
    assert_eq!(s.modules.len(), 0);
}

#[test]
fn invoke_checks_arity_and_types() {
    let mut s = new_store();
    let fa = allocation::alloc_host_function(&mut s, HostFunc { id: 0 }, FuncType {
        args: vec![ValType::I32, ValType::F64],
        results: vec![ValType::I32],
    });
    let too_few = vec![Val::I32(1)];
    assert!(matches!(
        invocation::invoke(&s, fa, &too_few),
        Err(InvokeError::MismatchedArgumentCount)
    ));
    let wrong_ty = vec![Val::I32(1), Val::I64(2)];
    assert!(matches!(
        invocation::invoke(&s, fa, &wrong_ty),
        Err(InvokeError::MismatchedArgumentType)
    ));
    let good = vec![Val::I32(1), Val::F64(2.5f64.to_bits())];
    let prep = invocation::invoke(&s, fa, &good).unwrap();
    assert_eq!(prep.stack, good);
    assert_eq!(prep.result_arity, 1);
    // the interpreter leaves results on the stack; pop them off
    let mut stack = vec![Val::I32(9), Val::I32(42)];
    let results = invocation::collect_results(&mut stack, 1);
    assert_eq!(results, vec![Val::I32(42)]);
    assert_eq!(stack, vec![Val::I32(9)]);
}

#[test]
fn call_and_drop_type_through_sequence() {
    let mut c = Ctx::new();
    c.funcs = vec![FuncType { args: vec![ValType::I32], results: vec![ValType::I64] }];
    // i32.const; call 0; drop types as [] -> []
    let seq = vec![Instr::TConst(Val::I32(3)), Instr::Call(0), Instr::Drop];
    let ty = validate::instruction_sequence(&c, &seq).unwrap();
    let expected = AnyFuncType { args: vec![], results: vec![] };
    assert!(c.is_valid_with(&ty, &expected).is_ok());
    // calling an out-of-range function fails
    let bad = validate::instruction_sequence(&c, &vec![Instr::Call(1)]);
    assert_eq!(bad.unwrap_err().kind, ValidationErrorEnum::FuncIdxOutOfRange);
    // a type mismatch in sequencing is reported
    let mism = validate::instruction_sequence(&c, &vec![
        Instr::TConst(Val::I64(1)),
        Instr::Call(0),
    ]);
    assert_eq!(mism.unwrap_err().kind, ValidationErrorEnum::InstrSequenceUnificationFailed);
}

fn empty_module() -> Module {
    Module {
        types: vec![],
        funcs: vec![],
        tables: vec![],
        mems: vec![],
        globals: vec![],
        elem: vec![],
        data: vec![],
        start: None,
        imports: vec![],
        exports: vec![],
    }
}

#[test]
fn import_arity_mismatch_fails() {
    let mut s = new_store();
    let mut m = empty_module();
    // two imports declared, one external value supplied
    m.imports = vec![
        Import {
            module: b"env".to_vec(),
            name: b"g0".to_vec(),
            desc: ImportDesc::Global(GlobalType { mutability: Mut::Const, valtype: ValType::I32 }),
        },
        Import {
            module: b"env".to_vec(),
            name: b"g1".to_vec(),
            desc: ImportDesc::Global(GlobalType { mutability: Mut::Const, valtype: ValType::I32 }),
        },
    ];
    let ga = allocation::alloc_global(&mut s, &GlobalType {
        mutability: Mut::Const,
        valtype: ValType::I32,
    }, Val::I32(1));
    let evs = vec![ExternVal::Global(ga)];
    let r = instantiation::instantiate_module(&mut s, &m, &evs);
    assert!(matches!(r, Err(InstantiationError::MismatchedNumberOfProvidedImports)));
    // nothing was allocated
    assert_eq!(s.modules.len(), 0);
    assert_eq!(s.globals.len(), 1);
}

#[test]
fn wrong_extern_type_in_import_fails() {
    let mut s = new_store();
    let mut m = empty_module();
    m.imports = vec![Import {
        module: b"env".to_vec(),
        name: b"g".to_vec(),
        desc: ImportDesc::Global(GlobalType { mutability: Mut::Const, valtype: ValType::I64 }),
    }];
    let ga = allocation::alloc_global(&mut s, &GlobalType {
        mutability: Mut::Const,
        valtype: ValType::I32,
    }, Val::I32(1));
    let evs = vec![ExternVal::Global(ga)];
    let r = instantiation::instantiate_module(&mut s, &m, &evs);
    assert!(matches!(r, Err(InstantiationError::WrongExternTypeInImport)));
}

#[test]
fn global_initializer_reads_imported_global() {
    let mut s = new_store();
    // imported const global carrying I32(7)
    let ga = allocation::alloc_global(&mut s, &GlobalType {
        mutability: Mut::Const,
        valtype: ValType::I32,
    }, Val::I32(7));
    let mut m = empty_module();
    m.imports = vec![Import {
        module: b"env".to_vec(),
        name: b"g".to_vec(),
        desc: ImportDesc::Global(GlobalType { mutability: Mut::Const, valtype: ValType::I32 }),
    }];
    m.globals = vec![Global {
        type_: GlobalType { mutability: Mut::Var, valtype: ValType::I32 },
        init: Expr { body: vec![Instr::GetGlobal(0)] },
    }];
    assert!(validate::validate_module(&m).is_ok());
    let evs = vec![ExternVal::Global(ga)];
    let (addr, start) = instantiation::instantiate_module(&mut s, &m, &evs).unwrap();
    assert!(start.is_none());
    let ownaddr = s.modules[addr].globaladdrs[1];
    assert_eq!(s.globals[ownaddr].value, Val::I32(7));
}

#[test]
fn elem_segment_out_of_bounds_leaves_residue() {
    let mut s = new_store();
    let mut m = empty_module();
    m.types = vec![FuncType { args: vec![], results: vec![] }];
    m.funcs = vec![
        Func { type_: 0, locals: vec![], body: Expr { body: vec![] } },
        Func { type_: 0, locals: vec![], body: Expr { body: vec![] } },
    ];
    m.tables = vec![Table {
        type_: TableType {
            limits: Limits { min: 1, max: Some(1) },
            elemtype: ElemType::AnyFunc,
        },
    }];
    // two entries at offset 0 into a table of size 1
    m.elem = vec![wasm_core::ast::Elem {
        table: 0,
        offset: Expr { body: vec![Instr::TConst(Val::I32(0))] },
        init: vec![0, 1],
    }];
    assert!(validate::validate_module(&m).is_ok());
    let evs = vec![];
    let r = instantiation::instantiate_module(&mut s, &m, &evs);
    assert!(matches!(r, Err(InstantiationError::ElemIdxOutOfBounds)));
    // documented residue: the new instances are present
    assert_eq!(s.funcs.len(), 2);
    assert_eq!(s.tables.len(), 1);
    assert_eq!(s.modules.len(), 1);
    // but no table slot was written
    assert!(s.tables[0].elem[0].0.is_none());
}

#[test]
fn instantiate_writes_elem_and_data_and_prepares_start() {
    let mut s = new_store();
    let mut m = empty_module();
    m.types = vec![FuncType { args: vec![], results: vec![] }];
    m.funcs = vec![Func { type_: 0, locals: vec![], body: Expr { body: vec![] } }];
    m.tables = vec![Table {
        type_: TableType {
            limits: Limits { min: 2, max: Some(2) },
            elemtype: ElemType::AnyFunc,
        },
    }];
    m.mems = vec![wasm_core::ast::Mem {
        type_: MemType { limits: Limits { min: 1, max: Some(1) } },
    }];
    m.elem = vec![wasm_core::ast::Elem {
        table: 0,
        offset: Expr { body: vec![Instr::TConst(Val::I32(1))] },
        init: vec![0],
    }];
    m.data = vec![wasm_core::ast::Data {
        data: 0,
        offset: Expr { body: vec![Instr::TConst(Val::I32(3))] },
        init: vec![b'h', b'i'],
    }];
    m.start = Some(wasm_core::ast::Start { func: 0 });
    m.exports = vec![Export { name: b"f".to_vec(), desc: ExportDesc::Func(0) }];
    assert!(validate::validate_module(&m).is_ok());
    let evs = vec![];
    let (addr, start) = instantiation::instantiate_module(&mut s, &m, &evs).unwrap();
    // the element segment was applied
    let ta = s.modules[addr].tableaddrs[0];
    assert_eq!(s.tables[ta].elem[1].0, Some(s.modules[addr].funcaddrs[0]));
    assert!(s.tables[ta].elem[0].0.is_none());
    // the data segment was applied
    let ma = s.modules[addr].memaddrs[0];
    assert_eq!(s.mems[ma].data[3], b'h');
    assert_eq!(s.mems[ma].data[4], b'i');
    assert_eq!(s.mems[ma].data[0], 0);
    // exports resolve to allocated addresses
    assert_eq!(s.modules[addr].exports[0].name, b"f".to_vec());
    assert_eq!(s.modules[addr].exports[0].value, ExternVal::Func(s.modules[addr].funcaddrs[0]));
    // the start function comes back as a prepared invocation
    let prep = start.unwrap();
    assert_eq!(prep.funcaddr, s.modules[addr].funcaddrs[0]);
    assert_eq!(prep.stack.len(), 0);
    assert_eq!(prep.result_arity, 0);
}

#[test]
fn validate_module_checks() {
    // a well-formed module validates
    let mut m = empty_module();
    m.types = vec![FuncType { args: vec![ValType::I32], results: vec![ValType::I32] }];
    m.funcs = vec![Func {
        type_: 0,
        locals: vec![],
        body: Expr { body: vec![Instr::GetLocal(0)] },
    }];
    m.exports = vec![Export { name: b"id".to_vec(), desc: ExportDesc::Func(0) }];
    assert!(validate::validate_module(&m).is_ok());
    assert!(validate::module(&Ctx::new(), &m).is_ok());

    // a function type with two results is rejected
    let mut bad = empty_module();
    bad.types = vec![FuncType { args: vec![], results: vec![ValType::I32, ValType::I32] }];
    assert_eq!(
        validate::validate_module(&bad).unwrap_err().kind,
        ValidationErrorEnum::FunctionTypeResultArityGreaterOne
    );

    // two tables are rejected
    let mut two_tables = empty_module();
    let tt = TableType { limits: Limits { min: 0, max: None }, elemtype: ElemType::AnyFunc };
    two_tables.tables = vec![Table { type_: tt }, Table { type_: tt }];
    assert_eq!(
        validate::validate_module(&two_tables).unwrap_err().kind,
        ValidationErrorEnum::ModuleTablesMoreThanOne
    );

    // duplicate export names are rejected
    let mut dup = empty_module();
    dup.types = vec![FuncType { args: vec![], results: vec![] }];
    dup.funcs = vec![Func { type_: 0, locals: vec![], body: Expr { body: vec![] } }];
    dup.exports = vec![
        Export { name: b"e".to_vec(), desc: ExportDesc::Func(0) },
        Export { name: b"e".to_vec(), desc: ExportDesc::Func(0) },
    ];
    assert_eq!(
        validate::validate_module(&dup).unwrap_err().kind,
        ValidationErrorEnum::ExportNamesNotUnique
    );

    // a start function with arguments is rejected
    let mut badstart = empty_module();
    badstart.types = vec![FuncType { args: vec![ValType::I32], results: vec![] }];
    badstart.funcs = vec![Func {
        type_: 0,
        locals: vec![],
        body: Expr { body: vec![Instr::GetLocal(0), Instr::Drop] },
    }];
    badstart.start = Some(wasm_core::ast::Start { func: 0 });
    assert_eq!(
        validate::validate_module(&badstart).unwrap_err().kind,
        ValidationErrorEnum::StartFunctionInvalidType
    );
}

#[test]
fn const_expr_checks() {
    let mut c = Ctx::new();
    c.globals = vec![
        GlobalType { mutability: Mut::Const, valtype: ValType::I32 },
        GlobalType { mutability: Mut::Var, valtype: ValType::I32 },
    ];
    let ok = Expr { body: vec![Instr::TConst(Val::I32(1))] };
    assert!(validate::const_expr(&c, &ok).is_ok());
    let ok2 = Expr { body: vec![Instr::GetGlobal(0)] };
    assert!(validate::const_expr(&c, &ok2).is_ok());
    let not_const_global = Expr { body: vec![Instr::GetGlobal(1)] };
    assert_eq!(
        validate::const_expr(&c, &not_const_global).unwrap_err().kind,
        ValidationErrorEnum::ConstExprGetGlobalNotConst
    );
    let illegal = Expr { body: vec![Instr::Nop] };
    assert_eq!(
        validate::const_expr(&c, &illegal).unwrap_err().kind,
        ValidationErrorEnum::ConstExprIlligalInstruction
    );
}

#[test]
fn expression_computes_result_type() {
    let c = Ctx::new();
    let e = Expr { body: vec![Instr::TConst(Val::I64(5))] };
    let r = validate::expression(&c, &e).unwrap();
    assert_eq!(r, Some(AnyValType::I64));
    let empty = Expr { body: vec![] };
    assert_eq!(validate::expression(&c, &empty).unwrap(), None);
    // two leftover values do not form an expression result
    let two = Expr {
        body: vec![Instr::TConst(Val::I32(1)), Instr::TConst(Val::I32(2))],
    };
    assert!(validate::expression(&c, &two).is_err());
}

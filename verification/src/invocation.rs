//! The invocation entry: argument arity and type checking against the
//! function instance's declared type. Running the prepared call is the
//! interpreter's job, an external collaborator: the caller receives the
//! checked argument stack and the result arity, runs the function, and pops
//! the results.

use vstd::prelude::*;
use crate::types::{Val, ValType};
use crate::runtime::{Store, FuncAddr};

verus! {

/// Failures of the invocation entry.
#[derive(Clone, Copy, Debug, PartialEq, Eq, Structural)]
pub enum InvokeError {
    MismatchedArgumentCount,
    MismatchedArgumentType,
}

/// A checked, ready-to-run call: the argument stack in push order and the
/// number of results the interpreter will leave on it.
#[derive(Debug)]
pub struct InvokePrep {
    pub funcaddr: FuncAddr,
    pub stack: Vec<Val>,
    pub result_arity: usize,
}

/// Whether every argument value carries the declared argument type.
pub open spec fn spec_args_match(args: Seq<ValType>, vals: Seq<Val>) -> bool {
    forall|i: int| 0 <= i < vals.len() ==> (#[trigger] vals[i]).ty_spec() == args[i]
}

/// Checks a call's arguments against the function instance at `funcaddr`
/// and prepares the stack the interpreter runs on. Fails with
/// `MismatchedArgumentCount` exactly when the arity differs, and with
/// `MismatchedArgumentType` exactly when the arity agrees but some value
/// has the wrong type.
pub fn invoke(s: &Store, funcaddr: FuncAddr, vals: &Vec<Val>) -> (r: Result<
    InvokePrep,
    InvokeError,
>)
    requires
        funcaddr < s.funcs@.len(),
    ensures
        r matches Ok(p) ==> {
            &&& vals@.len() == s.funcs@[funcaddr as int].type_spec().args@.len()
            &&& spec_args_match(s.funcs@[funcaddr as int].type_spec().args@, vals@)
            &&& p.funcaddr == funcaddr
            &&& p.stack@ == vals@
            &&& p.result_arity == s.funcs@[funcaddr as int].type_spec().results@.len()
        },
        r matches Err(e) ==> e == (if vals@.len() != s.funcs@[funcaddr as int].type_spec().args@.len() {
            InvokeError::MismatchedArgumentCount
        } else {
            InvokeError::MismatchedArgumentType
        }),
        r is Err <==> (vals@.len() != s.funcs@[funcaddr as int].type_spec().args@.len()
            || !spec_args_match(s.funcs@[funcaddr as int].type_spec().args@, vals@)),
{
    let ty = s.funcs[funcaddr].type_();
    if vals.len() != ty.args.len() {
        return Err(InvokeError::MismatchedArgumentCount);
    }
    let mut i: usize = 0;
    while i < vals.len()
        invariant
            i <= vals@.len(),
            vals@.len() == s.funcs@[funcaddr as int].type_spec().args@.len(),
            funcaddr < s.funcs@.len(),
            ty@ == s.funcs@[funcaddr as int].type_spec()@,
            forall|j: int|
                0 <= j < i ==> (#[trigger] vals@[j]).ty_spec() == s.funcs@[funcaddr as int].type_spec().args@[j],
        decreases vals@.len() - i,
    {
        let vt = vals[i].ty();
        if vt != ty.args[i] {
            proof {
                assert(!spec_args_match(s.funcs@[funcaddr as int].type_spec().args@, vals@));
            }
            return Err(InvokeError::MismatchedArgumentType);
        }
        i = i + 1;
    }
    let mut stack: Vec<Val> = Vec::new();
    let mut k: usize = 0;
    while k < vals.len()
        invariant
            k <= vals@.len(),
            stack@ == vals@.subrange(0, k as int),
        decreases vals@.len() - k,
    {
        stack.push(vals[k]);
        k = k + 1;
    }
    proof {
        assert(stack@ == vals@);
    }
    let result_arity = ty.results.len();
    Ok(InvokePrep { funcaddr, stack, result_arity })
}

/// Pops `m` results off a stack the interpreter left behind, last pushed
/// first, as the results of a completed call.
pub fn collect_results(stack: &mut Vec<Val>, m: usize) -> (r: Vec<Val>)
    requires
        m <= old(stack)@.len(),
    ensures
        r@.len() == m,
        forall|i: int| 0 <= i < m ==> #[trigger] r@[i] == old(stack)@[old(stack)@.len() - 1 - i],
        final(stack)@ == old(stack)@.subrange(0, old(stack)@.len() - m),
{
    let mut results: Vec<Val> = Vec::new();
    let mut i: usize = 0;
    while i < m
        invariant
            i <= m,
            m <= old(stack)@.len(),
            stack@ == old(stack)@.subrange(0, old(stack)@.len() - i),
            results@.len() == i,
            forall|j: int|
                0 <= j < i ==> #[trigger] results@[j] == old(stack)@[old(stack)@.len() - 1 - j],
        decreases m - i,
    {
        let v = stack.pop().unwrap();
        results.push(v);
        proof {
            assert(stack@ =~= old(stack)@.subrange(0, old(stack)@.len() - i - 1));
        }
        i = i + 1;
    }
    results
}

} // verus!

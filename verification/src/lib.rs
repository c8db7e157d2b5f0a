//! Core of a WebAssembly execution environment: static validation of decoded
//! modules against the typing rules, and instantiation of validated modules
//! against host-provided imports into a shared store.
//!
//! The binary decoder and the instruction interpreter are external
//! collaborators; this crate works on already-decoded `Module` values and
//! hands prepared invocations back to its caller.

pub mod types;
pub mod ast;
pub mod runtime;
pub mod import_matching;
pub mod external_typing;
pub mod allocation;
pub mod validation;
pub mod validate;
pub mod invocation;
pub mod instantiation;

use vstd::prelude::*;

verus! {

} // verus!

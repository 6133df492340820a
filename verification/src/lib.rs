//! A mid-level intermediate representation (MIR) for a small purely
//! functional language, together with the passes that surround it: an
//! s-expression interchange encoding, a desugaring transform, a basic-block
//! control-flow-graph builder that lowers structured statements into MIR,
//! and an explicit-continuation interpreter that evaluates desugared MIR
//! without growing the host call stack.

pub mod ast;
pub mod cfg;
pub mod compiler;
pub mod expr;
pub mod hir;
pub mod mir;
pub mod miri;
pub mod sexp;
pub mod stmt;

//! Lint-rule core that flags "floating" promises: expression statements that
//! produce a promise-like value without awaiting it, attaching a rejection
//! handler, or explicitly discarding it.
//!
//! The crate works on a read-only model of a parsed program: syntax values
//! (`ast`), a semantic model resolving identifier references to their
//! declarations (`semantic`), promise-value inference (`inference`), the
//! handled-chain resolver (`handled`), the enclosing-function scope finder
//! (`scope`), and the rule orchestrator that combines them (`rule`).

pub mod ast;
pub mod handled;
pub mod inference;
pub mod laws;
pub mod rule;
pub mod scope;
pub mod semantic;

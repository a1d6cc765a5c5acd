//! A small compiler that lowers a Lisp-like surface language into the
//! compact binary instruction stream of a stack-based covenant virtual
//! machine.
//!
//! The crate covers the two lowering stages:
//! 1. function expansion with hygienic variable mangling
//!    ([`parser::expansion`]), which inlines user-defined functions and
//!    renames every bound variable to a globally unique integer id, and
//! 2. bytecode compilation ([`compiler`]), a deterministic postfix
//!    serialization of the low-level expression tree into bytes.
//!
//! Parsing source text, assigning heap slots to variable ids, and executing
//! the produced bytes are external collaborators and are not part of this
//! crate.

pub mod compiler;
pub mod parser;
pub mod types;

//! Front end of a compiler for a small statically-typed language: a tokenizer,
//! a scoped symbol-resolution engine, and a recursive-descent parser that build
//! a typed expression tree, together with the supporting data model (types,
//! metadata, diagnostics) and small back-end and packaging helpers.
#![verifier::loop_isolation(false)]

pub mod assign;
pub mod ast;
pub mod backend;
pub mod binary;
pub mod defun;
pub mod diag;
pub mod heap_array;
pub mod import;
pub mod lexer;
pub mod nodes;
pub mod pack;
pub mod token;
pub mod tokenizer;
pub mod reports;
pub mod runner;
pub mod scope;
pub mod session;
pub mod sso;
pub mod util;


//! Semantic analysis and lowering for a small contract language: a typed,
//! scoped intermediate representation and the recursive compiler that
//! produces it from a syntax tree.
pub mod ast;
pub mod compiler;
pub mod error;
pub mod token;
pub mod instruction;
pub mod laws;
pub mod ordered_map;
pub mod symbol_table;

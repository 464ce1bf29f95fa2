//! Middle stage of a small compiler for a minimal imperative language:
//! a constant-folding pass over the abstract syntax tree, and a lowering
//! pass from the validated tree to a control-flow-graph intermediate
//! representation made of basic blocks.

pub mod ast;
pub mod constant_folding;
pub mod error;
pub mod ir;
pub mod operator;
pub mod ssagen;
pub mod symtab;

//! Translation of a pseudocode program tree into the body of a LaTeX
//! `algorithm` block, with the nesting of each statement carried over into
//! the indentation of its lines.

pub mod ast;
pub mod string_builder;
pub mod generator;
pub mod label;
pub mod laws;
pub mod model;
mod text;

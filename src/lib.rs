//! A code generator for a two-language bridge: a validated interface model
//! (shared structs, opaque types, functions on either side) is turned into
//! native header and implementation text, with mangled C-linkage symbols and
//! per-instantiation glue for generic containers.
mod text;
pub mod atom;
pub mod syntax;
pub mod out;
pub mod mangle;
pub mod types;
pub mod write;
pub mod glue;
pub mod emit;
pub mod vector;
pub mod rust_vec;
pub mod demo;
pub mod check;
pub mod bridge;

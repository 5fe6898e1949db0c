//! Naming and bridge synthesis for methods that cross between Rust and C++.
//!
//! A method is declared once, on the Rust side. From its declaration this
//! crate settles the pair of names under which the two languages know it,
//! derives the names of the wrapper that carries a call across, and writes
//! the block that declares the method to the bridge between them.

pub mod case;
pub mod fragment;
pub mod gen_rs;
pub mod inherit;
pub mod method;
pub mod naming;
pub mod parser;
pub mod syntax;
pub mod tokens;

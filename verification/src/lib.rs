//! Lowering of a decoded stack-machine module into a block-structured
//! intermediate representation.
//!
//! The input is a [`WasmModule`]: functions with their operator streams, at
//! most one linear memory, globals and an optional start function.  The
//! output is the intermediate representation held by a [`Compiler`]: one
//! named entry per function, made of labelled blocks and placed
//! instructions, ready to be handed to a native code generator.
//!
//! - [`wasm_parser`] holds the decoded module and assembles it from its
//!   sections; [`shape`] is the table of the operators.
//! - [`lowering`] lowers one function, operator by operator; [`control`]
//!   resolves branches; [`compiler`] lowers a whole module.
//! - [`ir`] is the intermediate representation, [`names`] the names in it.
//! - [`numeric`] and [`machine`] say what the integer instructions compute;
//!   [`laws`], [`bounds`] and [`wellformed`] state what holds of the code
//!   that the lowering emits for an operator, [`programs`] what holds of
//!   whole functions.

pub mod bounds;
pub mod compiler;
pub mod control;
pub mod error;
pub mod ir;
pub mod laws;
pub mod lowering;
pub mod machine;
pub mod names;
pub mod numeric;
pub mod programs;
pub mod shape;
pub mod wasm_parser;
pub mod wellformed;

pub use compiler::Compiler;
pub use error::CompileError;
pub use wasm_parser::WasmModule;

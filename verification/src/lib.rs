//! Type-stack analysis of WebAssembly function bodies.
//!
//! The library follows the operand stack of a WebAssembly function body
//! operator by operator, recording for every operator the sizes (in 32-bit
//! slots) of the values on the stack after it has run.

pub mod types;
pub mod module;
pub mod op;
pub mod text;
pub mod function;
pub mod opcode;
pub mod laws;
pub mod op_laws;
pub mod text_laws;

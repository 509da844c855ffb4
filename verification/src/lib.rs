//! A retargeting instruction translator: reads a small register-machine
//! assembly dialect and emits equivalent assembly for an 8-bit accumulator
//! machine whose registers live in a tiny zero-page memory region.

pub mod arg;
pub mod asm_line;
pub mod codegen;
pub mod demo;
pub mod emit;
pub mod machine;
pub mod text;
pub mod transpiler;

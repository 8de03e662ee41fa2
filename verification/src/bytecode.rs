//! A tiny stack machine: chunks of instructions, built one instruction at
//! a time, and a machine that runs them. It knows constants and arithmetic
//! and nothing else, and stands beside the tree-walking evaluator.
pub mod chunk;
pub mod debug;
pub mod error;
pub mod instruction;
pub mod opcode;
pub mod scanner;
pub mod token;
pub mod vm;

//! A small expression-and-statement language: lexer, recursive-descent
//! parser, lexically scoped environment and tree-walking evaluator, together
//! with a tiny stack machine over a builder of instruction chunks.
//!
//! Source text becomes tokens ([`lexer`]), tokens become a tree
//! ([`grammar`], [`parser`], [`program`]), and the tree is evaluated against
//! an environment ([`semantics`], [`eval`], [`environment`], [`value`]).
//! What each stage computes is laid down as a function on mathematical
//! values, and the code is proved to compute exactly that. [`printing`]
//! proves that a parsed expression, written back as tokens, is the tokens
//! it was parsed from and parses to the same tree again.
//!
//! Numbers are IEEE-754 binary64 values. Verified code cannot hold native
//! floating-point values, so a number is carried as its 64-bit pattern.
//! What can be decided on the pattern alone (sign, equality, total order) is
//! done here, in [`number`]. Reading a decimal literal and the four
//! arithmetic operations are supplied by the caller as functions on bit
//! patterns. Every contract that depends on them says what is computed
//! given that the supplied function gives the same result for the same
//! arguments.
pub mod bytecode;
pub mod environment;
pub mod error;
pub mod eval;
pub mod grammar;
pub mod lexer;
pub mod lox;
pub mod number;
pub mod parser;
pub mod printing;
pub mod program;
pub mod scanner;
pub mod semantics;
pub mod text;
pub mod value;

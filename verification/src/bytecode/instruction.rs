//! The instructions of the stack machine.
use vstd::prelude::*;

verus! {

/// One instruction. Two instructions are equal when they are the same
/// instruction with, for a constant, the same bit pattern.
#[derive(Clone, Copy, Debug, PartialEq, Eq, Structural)]
pub enum Instruction {
    /// Pushes a number, given as the bit pattern of its binary64 value.
    Constant(u64),
    Negate,
    Add,
    Subtract,
    Multiply,
    Divide,
    Return,
}

impl Instruction {
    /// The name of the instruction, as a listing shows it.
    pub open spec fn mnemonic(self) -> Seq<char> {
        match self {
            Instruction::Constant(_) => "constant"@,
            Instruction::Negate => "negate"@,
            Instruction::Add => "add"@,
            Instruction::Subtract => "subtract"@,
            Instruction::Multiply => "multiply"@,
            Instruction::Divide => "divide"@,
            Instruction::Return => "return"@,
        }
    }

    /// The name of the instruction, as a listing shows it.
    pub fn name(&self) -> (out: &'static str)
        ensures
            out@ == self.mnemonic(),
    {
        match self {
            Instruction::Constant(_) => "constant",
            Instruction::Negate => "negate",
            Instruction::Add => "add",
            Instruction::Subtract => "subtract",
            Instruction::Multiply => "multiply",
            Instruction::Divide => "divide",
            Instruction::Return => "return",
        }
    }

    /// The number a constant instruction pushes.
    pub fn constant(&self) -> (value: Option<u64>)
        ensures
            value == match *self {
                Instruction::Constant(bits) => Some(bits),
                _ => None,
            },
    {
        match self {
            Instruction::Constant(bits) => Some(*bits),
            _ => None,
        }
    }
}

} // verus!

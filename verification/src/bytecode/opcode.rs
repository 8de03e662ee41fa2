//! The compact instructions: a constant is an index into a table of values.
use vstd::prelude::*;

verus! {

/// One compact instruction.
#[derive(Clone, Copy, Debug, PartialEq, Eq, Structural)]
pub enum Instruction {
    Return,
    /// Pushes the value at the given index of the table of constants.
    Constant(u8),
}

impl Instruction {
    /// The name of the instruction, as a listing shows it.
    pub open spec fn mnemonic(self) -> Seq<char> {
        match self {
            Instruction::Return => "return"@,
            Instruction::Constant(_) => "constant"@,
        }
    }

    /// The name of the instruction, as a listing shows it.
    pub fn name(&self) -> (out: &'static str)
        ensures
            out@ == self.mnemonic(),
    {
        match self {
            Instruction::Return => "return",
            Instruction::Constant(_) => "constant",
        }
    }

    /// The value a constant instruction refers to in `values`, if its index
    /// is within the table.
    pub fn operand(&self, values: &Vec<u64>) -> (value: Option<u64>)
        ensures
            value == match *self {
                Instruction::Constant(index) if index < values.len() => Some(values[index as int]),
                _ => None,
            },
    {
        match self {
            Instruction::Constant(index) => {
                let i: usize = *index as usize;
                if i < values.len() {
                    Some(values[i])
                } else {
                    None
                }
            },
            _ => None,
        }
    }
}

} // verus!

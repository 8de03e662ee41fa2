//! Chunks: a name, instructions, and the source line of each.
use vstd::prelude::*;
use vstd::string::StringExecFns;
use crate::bytecode::instruction::Instruction;

verus! {

/// A named sequence of instructions, each with the source line it came
/// from.
pub struct Chunk {
    name: String,
    instructions: Vec<Instruction>,
    lines: Vec<usize>,
}

/// The mathematical value of a [`Chunk`].
pub struct ChunkView {
    pub name: Seq<char>,
    pub instructions: Seq<Instruction>,
    pub lines: Seq<usize>,
}

impl ChunkView {
    /// With `instruction`, from source line `line`, at the end.
    pub open spec fn with(self, instruction: Instruction, line: usize) -> ChunkView {
        ChunkView {
            name: self.name,
            instructions: self.instructions.push(instruction),
            lines: self.lines.push(line),
        }
    }

    /// Whether every instruction has its line.
    pub open spec fn well_formed(self) -> bool {
        self.instructions.len() == self.lines.len()
    }
}

impl View for Chunk {
    type V = ChunkView;

    closed spec fn view(&self) -> ChunkView {
        ChunkView { name: self.name@, instructions: self.instructions@, lines: self.lines@ }
    }
}

impl Chunk {
    /// Whether every instruction has its line. Every chunk built by
    /// [`Chunk::new`] and the `op_` methods is.
    pub closed spec fn well_formed(&self) -> bool {
        self.instructions.len() == self.lines.len()
    }

    /// The view of a well-formed chunk is well formed.
    pub proof fn well_formed_view(&self)
        ensures
            self.well_formed() == self@.well_formed(),
    {
    }

    /// An empty chunk called `name`.
    pub fn new(name: &str) -> (chunk: Self)
        ensures
            chunk.well_formed(),
            chunk@ == (ChunkView {
                name: name@,
                instructions: Seq::empty(),
                lines: Seq::empty(),
            }),
    {
        Chunk { name: String::from_str(name), instructions: Vec::new(), lines: Vec::new() }
    }

    /// With `instruction`, from source line `line`, at the end.
    fn op(self, instruction: Instruction, line: usize) -> (chunk: Chunk)
        ensures
            chunk@ == self@.with(instruction, line),
            self.well_formed() ==> chunk.well_formed(),
    {
        let mut chunk = self;
        chunk.instructions.push(instruction);
        chunk.lines.push(line);
        chunk
    }

    /// With an instruction that pushes `constant`, a binary64 bit pattern.
    pub fn op_constant(self, constant: u64, line: usize) -> (chunk: Chunk)
        ensures
            chunk@ == self@.with(Instruction::Constant(constant), line),
            self.well_formed() ==> chunk.well_formed(),
    {
        self.op(Instruction::Constant(constant), line)
    }

    /// With an instruction that negates the top of the stack.
    pub fn op_negate(self, line: usize) -> (chunk: Chunk)
        ensures
            chunk@ == self@.with(Instruction::Negate, line),
            self.well_formed() ==> chunk.well_formed(),
    {
        self.op(Instruction::Negate, line)
    }

    /// With an instruction that ends the run with the top of the stack.
    pub fn op_return(self, line: usize) -> (chunk: Chunk)
        ensures
            chunk@ == self@.with(Instruction::Return, line),
            self.well_formed() ==> chunk.well_formed(),
    {
        self.op(Instruction::Return, line)
    }

    /// With an instruction that adds the two values on top of the stack.
    pub fn op_add(self, line: usize) -> (chunk: Chunk)
        ensures
            chunk@ == self@.with(Instruction::Add, line),
            self.well_formed() ==> chunk.well_formed(),
    {
        self.op(Instruction::Add, line)
    }

    /// With an instruction that subtracts the two values on top of the
    /// stack.
    pub fn op_subtract(self, line: usize) -> (chunk: Chunk)
        ensures
            chunk@ == self@.with(Instruction::Subtract, line),
            self.well_formed() ==> chunk.well_formed(),
    {
        self.op(Instruction::Subtract, line)
    }

    /// With an instruction that multiplies the two values on top of the
    /// stack.
    pub fn op_multiply(self, line: usize) -> (chunk: Chunk)
        ensures
            chunk@ == self@.with(Instruction::Multiply, line),
            self.well_formed() ==> chunk.well_formed(),
    {
        self.op(Instruction::Multiply, line)
    }

    /// With an instruction that divides the two values on top of the stack.
    pub fn op_divide(self, line: usize) -> (chunk: Chunk)
        ensures
            chunk@ == self@.with(Instruction::Divide, line),
            self.well_formed() ==> chunk.well_formed(),
    {
        self.op(Instruction::Divide, line)
    }

    /// The name of the chunk.
    pub fn name(&self) -> (name: &str)
        ensures
            name@ == self@.name,
    {
        self.name.as_str()
    }

    /// The instructions, in order.
    pub fn instructions(&self) -> (instructions: &Vec<Instruction>)
        ensures
            instructions@ == self@.instructions,
    {
        &self.instructions
    }

    /// The source line of each instruction, in order.
    pub fn lines(&self) -> (lines: &Vec<usize>)
        ensures
            lines@ == self@.lines,
    {
        &self.lines
    }

    /// Whether the instruction at `index` comes from the same source line
    /// as the one before it; a listing then shows a bar in place of the
    /// line.
    pub fn continues_line(&self, index: usize) -> (r: bool)
        requires
            index < self@.lines.len(),
        ensures
            r == (index > 0 && self@.lines[index as int] == self@.lines[index - 1]),
    {
        index > 0 && self.lines[index] == self.lines[index - 1]
    }
}

} // verus!

//! What a listing of compact instructions needs to know.
use vstd::prelude::*;
use crate::bytecode::opcode::Instruction;

verus! {

/// The addresses `start..end` belong to the source line `line`.
#[derive(Clone, Copy, Debug, PartialEq, Eq, Structural)]
pub struct LineRange {
    pub line: u8,
    pub start: u8,
    pub end: u8,
}

impl LineRange {
    /// Whether the range holds `addr`.
    pub open spec fn contains(self, addr: u8) -> bool {
        self.start <= addr < self.end
    }
}

/// The index of the first range from `from` on that holds `addr`, or the
/// number of ranges.
pub open spec fn first_holding(lines: Seq<LineRange>, addr: u8, from: int) -> int
    decreases lines.len() - from,
{
    if 0 <= from < lines.len() && !lines[from].contains(addr) {
        first_holding(lines, addr, from + 1)
    } else {
        from
    }
}

/// The line of the address `addr`, taken modulo 256: that of the first
/// range that holds it; 0 if none does.
pub open spec fn line_of(addr: nat, lines: Seq<LineRange>) -> u8 {
    let found = first_holding(lines, (addr % 256) as u8, 0);
    if 0 <= found < lines.len() {
        lines[found].line
    } else {
        0
    }
}

/// Whether the instruction carries the index of a constant.
pub fn is_constant_instruction(instruction: &Instruction) -> (r: bool)
    ensures
        r == (*instruction is Constant),
{
    match instruction {
        Instruction::Constant(_) => true,
        _ => false,
    }
}

/// The source line of the instruction at `addr`.
pub fn get_line_for_addr(addr: usize, lines: &Vec<LineRange>) -> (line: u8)
    ensures
        line == line_of(addr as nat, lines@),
{
    let short: u8 = (addr % 256) as u8;
    let mut i: usize = 0;
    while i < lines.len()
        invariant
            i <= lines.len(),
            short == (addr % 256) as u8,
            first_holding(lines@, short, i as int) == first_holding(lines@, short, 0),
        decreases lines.len() - i,
    {
        if lines[i].start <= short && short < lines[i].end {
            return lines[i].line;
        }
        i += 1;
    }
    0
}

} // verus!

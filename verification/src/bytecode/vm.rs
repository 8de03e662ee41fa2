//! The stack machine.
use vstd::prelude::*;
use crate::bytecode::chunk::Chunk;
use crate::bytecode::error::LoxError;
use crate::bytecode::instruction::Instruction;
use crate::number::{negate, negated};
use crate::program::BinaryOp;
use crate::value::{calculator, computes_any, computes_as_function};

verus! {

/// The room the stack starts with.
pub const STACK_STARTING_CAPACITY: usize = 256;

/// A machine with a stack of numbers, each the bit pattern of a binary64
/// value.
pub struct VM {
    stack: Vec<u64>,
}

/// How a run ends.
pub enum Ending {
    /// A return instruction ended it with this value.
    Returned(u64),
    /// The instructions ran out.
    Finished,
    /// An instruction found too few values on the stack.
    Failed,
}

/// The end of a run, and the stack it leaves, top last.
pub struct Run {
    pub ending: Ending,
    pub stack: Seq<u64>,
}

/// The operator of an instruction of arithmetic.
pub open spec fn operator(instruction: Instruction) -> Option<BinaryOp> {
    match instruction {
        Instruction::Add => Some(BinaryOp::Plus),
        Instruction::Subtract => Some(BinaryOp::Minus),
        Instruction::Multiply => Some(BinaryOp::Times),
        Instruction::Divide => Some(BinaryOp::Div),
        _ => None,
    }
}

/// The run of `code[pc..]` on `stack`. An instruction of arithmetic takes
/// the top of the stack as its left operand and the value below as its
/// right one.
pub open spec fn run(
    arith: spec_fn(BinaryOp, u64, u64) -> u64,
    code: Seq<Instruction>,
    pc: int,
    stack: Seq<u64>,
) -> Run
    decreases code.len() - pc,
{
    if !(0 <= pc < code.len()) {
        Run { ending: Ending::Finished, stack }
    } else {
        match code[pc] {
            Instruction::Constant(bits) => run(arith, code, pc + 1, stack.push(bits)),
            Instruction::Negate => if stack.len() >= 1 {
                run(arith, code, pc + 1, stack.drop_last().push(negated(stack.last())))
            } else {
                Run { ending: Ending::Failed, stack }
            },
            Instruction::Return => if stack.len() >= 1 {
                Run { ending: Ending::Returned(stack.last()), stack: stack.drop_last() }
            } else {
                Run { ending: Ending::Failed, stack }
            },
            instruction => if stack.len() >= 2 {
                run(
                    arith,
                    code,
                    pc + 1,
                    stack.drop_last().drop_last().push(
                        arith(
                            operator(instruction)->0,
                            stack.last(),
                            stack[stack.len() - 2],
                        ),
                    ),
                )
            } else {
                Run { ending: Ending::Failed, stack: Seq::empty() }
            },
        }
    }
}

impl View for VM {
    type V = Seq<u64>;

    closed spec fn view(&self) -> Seq<u64> {
        self.stack@
    }
}

impl VM {
    /// A machine with an empty stack.
    pub fn new() -> (vm: Self)
        ensures
            vm@ == Seq::<u64>::empty(),
    {
        Self { stack: Vec::with_capacity(STACK_STARTING_CAPACITY) }
    }

    /// Runs the instructions of `chunk`, with `arith` for the arithmetic.
    ///
    /// A return instruction ends the run and gives the value on top of the
    /// stack. Without one the run ends after the last instruction, with no
    /// value. An instruction that finds too few values on the stack is a
    /// runtime error.
    pub fn interpret<A: Fn(BinaryOp, u64, u64) -> u64>(&mut self, chunk: &Chunk, arith: &A) -> (r:
        Result<Option<u64>, LoxError>)
        requires
            computes_any(*arith),
        ensures
            r matches Err(e) ==> e == LoxError::RuntimeError,
            computes_as_function(*arith) ==> ({
                let expected = run(calculator(*arith), chunk@.instructions, 0, old(self)@);
                &&& final(self)@ == expected.stack
                &&& match expected.ending {
                    Ending::Returned(value) => r == Ok::<Option<u64>, LoxError>(Some(value)),
                    Ending::Finished => r == Ok::<Option<u64>, LoxError>(None),
                    Ending::Failed => r == Err::<Option<u64>, LoxError>(LoxError::RuntimeError),
                }
            }),
    {
        let code = chunk.instructions();
        let mut pc: usize = 0;
        while pc < code.len()
            invariant
                pc <= code.len(),
                code@ == chunk@.instructions,
                computes_any(*arith),
                computes_as_function(*arith) ==> run(calculator(*arith), code@, pc as int, self@)
                    == run(calculator(*arith), code@, 0, old(self)@),
            decreases code.len() - pc,
        {
            match code[pc] {
                Instruction::Constant(bits) => {
                    self.push(bits);
                },
                Instruction::Negate => {
                    match self.pop() {
                        Some(value) => {
                            self.push(negate(value));
                        },
                        None => {
                            return Err(LoxError::RuntimeError);
                        },
                    }
                },
                Instruction::Return => {
                    match self.pop() {
                        Some(value) => {
                            return Ok(Some(value));
                        },
                        None => {
                            return Err(LoxError::RuntimeError);
                        },
                    }
                },
                Instruction::Add => {
                    if !self.arithmetic(BinaryOp::Plus, arith) {
                        return Err(LoxError::RuntimeError);
                    }
                },
                Instruction::Subtract => {
                    if !self.arithmetic(BinaryOp::Minus, arith) {
                        return Err(LoxError::RuntimeError);
                    }
                },
                Instruction::Multiply => {
                    if !self.arithmetic(BinaryOp::Times, arith) {
                        return Err(LoxError::RuntimeError);
                    }
                },
                Instruction::Divide => {
                    if !self.arithmetic(BinaryOp::Div, arith) {
                        return Err(LoxError::RuntimeError);
                    }
                },
            }
            pc += 1;
        }
        Ok(None)
    }

    /// Replaces the two values on top of the stack by `top op below`, and
    /// tells whether there were two. Without two the stack is left empty.
    fn arithmetic<A: Fn(BinaryOp, u64, u64) -> u64>(&mut self, op: BinaryOp, arith: &A) -> (done: bool)
        requires
            computes_any(*arith),
            op.is_arithmetic(),
        ensures
            done == (old(self)@.len() >= 2),
            !done ==> final(self)@ == Seq::<u64>::empty(),
            done && computes_as_function(*arith) ==> final(self)@ == old(self)@.drop_last().drop_last().push(
                calculator(*arith)(op, old(self)@.last(), old(self)@[old(self)@.len() - 2]),
            ),
    {
        let lhs = self.pop();
        let rhs = self.pop();
        match (lhs, rhs) {
            (Some(l), Some(r)) => {
                let value = arith(op, l, r);
                self.push(value);
                true
            },
            _ => {
                assert(self@ =~= Seq::<u64>::empty());
                false
            },
        }
    }

    /// Puts `value` on top of the stack.
    fn push(&mut self, value: u64)
        ensures
            final(self)@ == old(self)@.push(value),
    {
        self.stack.push(value)
    }

    /// Takes the value on top of the stack, if there is one.
    fn pop(&mut self) -> (value: Option<u64>)
        ensures
            match value {
                Some(v) => old(self)@.len() > 0 && v == old(self)@.last() && final(self)@ == old(
                    self,
                )@.drop_last(),
                None => old(self)@.len() == 0 && final(self)@ == old(self)@,
            },
    {
        self.stack.pop()
    }
}

} // verus!

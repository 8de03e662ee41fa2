//! The stack machine, its chunks and its scanner.
use std::mem::size_of;

use lox::bytecode::chunk::Chunk;
use lox::bytecode::debug::{get_line_for_addr, is_constant_instruction, LineRange};
use lox::bytecode::error::LoxError;
use lox::bytecode::instruction::Instruction as Wide;
use lox::bytecode::opcode::Instruction;
use lox::bytecode::scanner::Scanner;
use lox::bytecode::token::Token;
use lox::bytecode::vm::VM;
use lox::program::BinaryOp;

fn arith(op: BinaryOp, a: u64, b: u64) -> u64 {
    let (x, y) = (f64::from_bits(a), f64::from_bits(b));
    let r = match op {
        BinaryOp::Plus => x + y,
        BinaryOp::Minus => x - y,
        BinaryOp::Times => x * y,
        BinaryOp::Div => x / y,
        _ => unreachable!(),
    };
    r.to_bits()
}

#[test]
fn assert_instruction_size() {
    assert!(size_of::<Instruction>() <= 4);
}

#[test]
fn chunk_keeps_instructions_and_lines_in_order() {
    let chunk = Chunk::new("test chunk")
        .op_constant(1.2f64.to_bits(), 123)
        .op_negate(123)
        .op_constant(5.0f64.to_bits(), 124)
        .op_subtract(124)
        .op_return(125);
    assert_eq!(chunk.name(), "test chunk");
    assert_eq!(
        chunk.instructions(),
        &vec![
            Wide::Constant(1.2f64.to_bits()),
            Wide::Negate,
            Wide::Constant(5.0f64.to_bits()),
            Wide::Subtract,
            Wide::Return,
        ]
    );
    assert_eq!(chunk.lines(), &vec![123, 123, 124, 124, 125]);
    assert!(!chunk.continues_line(0));
    assert!(chunk.continues_line(1));
    assert!(!chunk.continues_line(2));
    assert!(chunk.continues_line(3));
    assert!(!chunk.continues_line(4));
}

#[test]
fn chunk_builders_append_their_instruction() {
    let chunk = Chunk::new("ops").op_add(1).op_multiply(2).op_divide(3);
    assert_eq!(chunk.instructions(), &vec![Wide::Add, Wide::Multiply, Wide::Divide]);
    assert_eq!(chunk.lines(), &vec![1, 2, 3]);
}

#[test]
fn machine_takes_the_top_as_left_operand() {
    // -1.2 is below, 5.0 on top: the difference is 5.0 - (-1.2)
    let chunk = Chunk::new("test chunk")
        .op_constant(1.2f64.to_bits(), 123)
        .op_negate(123)
        .op_constant(5.0f64.to_bits(), 123)
        .op_subtract(123)
        .op_return(123);
    let mut vm = VM::new();
    let result = vm.interpret(&chunk, &arith);
    assert_eq!(result, Ok(Some((5.0f64 - (-1.2f64)).to_bits())));
}

#[test]
fn machine_without_return_gives_no_value() {
    let chunk = Chunk::new("c").op_constant(2.0f64.to_bits(), 1);
    let mut vm = VM::new();
    assert_eq!(vm.interpret(&chunk, &arith), Ok(None));
}

#[test]
fn machine_fails_on_too_few_values() {
    let mut vm = VM::new();
    assert_eq!(vm.interpret(&Chunk::new("c").op_negate(1), &arith), Err(LoxError::RuntimeError));
    let mut vm = VM::new();
    assert_eq!(vm.interpret(&Chunk::new("c").op_return(1), &arith), Err(LoxError::RuntimeError));
    let mut vm = VM::new();
    let one = Chunk::new("c").op_constant(1.0f64.to_bits(), 1).op_add(1);
    assert_eq!(vm.interpret(&one, &arith), Err(LoxError::RuntimeError));
}

#[test]
fn machine_arithmetic() {
    let run = |chunk: Chunk| VM::new().interpret(&chunk, &arith);
    let two = 2.0f64.to_bits();
    let eight = 8.0f64.to_bits();
    let base = || Chunk::new("c").op_constant(two, 1).op_constant(eight, 1);
    assert_eq!(run(base().op_add(1).op_return(1)), Ok(Some(10.0f64.to_bits())));
    assert_eq!(run(base().op_multiply(1).op_return(1)), Ok(Some(16.0f64.to_bits())));
    assert_eq!(run(base().op_divide(1).op_return(1)), Ok(Some(4.0f64.to_bits())));
    assert_eq!(run(base().op_subtract(1).op_return(1)), Ok(Some(6.0f64.to_bits())));
}

#[test]
fn error_texts() {
    assert_eq!(LoxError::CompileError.message(), "Compile Error");
    assert_eq!(LoxError::RuntimeError.message(), "Runtime Error");
}

#[test]
fn instruction_names() {
    assert_eq!(Wide::Constant(0).name(), "constant");
    assert_eq!(Wide::Negate.name(), "negate");
    assert_eq!(Wide::Add.name(), "add");
    assert_eq!(Wide::Subtract.name(), "subtract");
    assert_eq!(Wide::Multiply.name(), "multiply");
    assert_eq!(Wide::Divide.name(), "divide");
    assert_eq!(Wide::Return.name(), "return");
    assert_eq!(Wide::Constant(7).constant(), Some(7));
    assert_eq!(Wide::Add.constant(), None);
    assert_eq!(Instruction::Return.name(), "return");
    assert_eq!(Instruction::Constant(1).name(), "constant");
}

#[test]
fn compact_constant_refers_to_the_table() {
    let values = vec![10u64, 20, 30];
    assert_eq!(Instruction::Constant(1).operand(&values), Some(20));
    assert_eq!(Instruction::Constant(3).operand(&values), None);
    assert_eq!(Instruction::Return.operand(&values), None);
    assert!(is_constant_instruction(&Instruction::Constant(0)));
    assert!(!is_constant_instruction(&Instruction::Return));
}

#[test]
fn line_of_an_address() {
    let lines = vec![
        LineRange { line: 7, start: 0, end: 4 },
        LineRange { line: 9, start: 4, end: 6 },
        LineRange { line: 11, start: 3, end: 5 },
    ];
    assert_eq!(get_line_for_addr(0, &lines), 7);
    assert_eq!(get_line_for_addr(3, &lines), 7);
    assert_eq!(get_line_for_addr(4, &lines), 9);
    assert_eq!(get_line_for_addr(6, &lines), 0);
    // the address is taken modulo 256
    assert_eq!(get_line_for_addr(256 + 5, &lines), 9);
}

#[test]
fn scanner_gives_punctuation_and_operators() {
    let scanner = Scanner::new("( ) != = <= ;;".to_string());
    let mut lexemes = scanner.lexemes();
    assert_eq!(lexemes.next(), Some(Token::LeftParen));
    assert_eq!(lexemes.next(), Some(Token::RightParen));
    assert_eq!(lexemes.next(), Some(Token::BangEqual));
    assert_eq!(lexemes.next(), Some(Token::Equal));
    assert_eq!(lexemes.next(), Some(Token::LessEqual));
    assert_eq!(lexemes.next(), Some(Token::Semicolon));
    // one character is left: the walk is at its end
    assert_eq!(lexemes.next(), Some(Token::EOF));
    assert_eq!(lexemes.next(), Some(Token::EOF));
}

#[test]
fn scanner_stops_before_what_starts_no_token() {
    let scanner = Scanner::new("+ a +".to_string());
    let mut lexemes = scanner.lexemes();
    assert_eq!(lexemes.next(), Some(Token::Plus));
    assert_eq!(lexemes.next(), None);
    assert_eq!(lexemes.next(), None);
}

#[test]
fn scanner_of_nothing_is_at_its_end() {
    let mut lexemes = Scanner::new(String::new()).lexemes();
    assert_eq!(lexemes.next(), Some(Token::EOF));
    let mut lexemes = Scanner::new("   ".to_string()).lexemes();
    assert_eq!(lexemes.next(), Some(Token::EOF));
}

//! Expressions written back as tokens.
use lox::lexer::{Lexer, Token, TokenType};
use lox::parser::Parser;
use lox::printing::written;
use lox::program::{Declaration, Expr, Statement};

fn read(text: &str) -> Option<u64> {
    text.parse::<f64>().ok().map(f64::to_bits)
}

fn types(source: &str) -> Vec<TokenType> {
    Lexer::from_source(source.to_string())
        .tokens(&read)
        .unwrap()
        .into_iter()
        .map(|t| t.token_type)
        .collect()
}

fn parse_types(types: Vec<TokenType>) -> Expr {
    let tokens = types
        .into_iter()
        .map(|token_type| Token { token_type, line: 1, lexeme: String::new() })
        .collect();
    let mut program = Parser::from_tokens(tokens).parse().unwrap();
    assert_eq!(program.len(), 1);
    match program.remove(0) {
        Declaration::Statement(Statement::Expr(e)) => e,
        other => panic!("not an expression statement: {:?}", other),
    }
}

const SOURCES: [&str; 12] = [
    "1",
    "x",
    "\"s\"",
    "1 + 2 * 3",
    "(1 + 2) * 3",
    "8 - 3 - 2",
    "-(-1)",
    "!true == false",
    "a = b = c + 1",
    "a or b and c",
    "1 < 2 == 2 >= 1 != nil",
    "((a))",
];

#[test]
fn written_expression_is_the_tokens_it_was_parsed_from() {
    for source in SOURCES {
        // the expression, its semicolon and the end marker
        let mut with_end = types(&format!("{};", source));
        let e = parse_types(with_end.clone());
        assert_eq!(with_end.pop(), Some(TokenType::Eof));
        assert_eq!(with_end.pop(), Some(TokenType::SemiColon));
        assert_eq!(written(&e), with_end, "{}", source);
    }
}

#[test]
fn written_expression_parses_to_the_same_tree() {
    for source in SOURCES {
        let e = parse_types(types(&format!("{};", source)));
        let mut again = written(&e);
        again.push(TokenType::SemiColon);
        assert_eq!(parse_types(again), e, "{}", source);
    }
}

#[test]
fn writing_puts_in_no_parentheses_of_its_own() {
    let e = parse_types(types("1 + 2 * 3;"));
    assert_eq!(
        written(&e),
        vec![
            TokenType::Number { literal: 1.0f64.to_bits() },
            TokenType::Plus,
            TokenType::Number { literal: 2.0f64.to_bits() },
            TokenType::Star,
            TokenType::Number { literal: 3.0f64.to_bits() },
        ]
    );
}

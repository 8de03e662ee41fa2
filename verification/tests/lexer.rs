//! The lexer: tokens, line numbers, recorded errors and fatal conditions.
use lox::lexer::{LexError, Lexer, Token, TokenType};
use lox::scanner::Scanner;

fn read(text: &str) -> Option<u64> {
    text.parse::<f64>().ok().map(f64::to_bits)
}

fn lex(source: &str) -> Vec<Token> {
    Lexer::from_source(source.to_string()).tokens(&read).unwrap()
}

fn kinds(source: &str) -> Vec<TokenType> {
    lex(source).into_iter().map(|t| t.token_type).collect()
}

fn token(token_type: TokenType, line: usize, lexeme: &str) -> Token {
    Token { token_type, line, lexeme: lexeme.to_string() }
}

fn identifier(name: &str) -> TokenType {
    TokenType::Identifier { name: name.to_string() }
}

fn number(x: f64) -> TokenType {
    TokenType::Number { literal: x.to_bits() }
}

#[test]
fn empty_source_is_only_the_end_marker() {
    assert_eq!(lex(""), vec![token(TokenType::Eof, 1, "")]);
}

#[test]
fn punctuation() {
    assert_eq!(
        kinds("(){},.-+;*/"),
        vec![
            TokenType::LeftParen,
            TokenType::RightParen,
            TokenType::LeftBrace,
            TokenType::RightBrace,
            TokenType::Comma,
            TokenType::Dot,
            TokenType::Minus,
            TokenType::Plus,
            TokenType::SemiColon,
            TokenType::Star,
            TokenType::Slash,
            TokenType::Eof,
        ]
    );
}

#[test]
fn operators_of_one_and_two_characters() {
    assert_eq!(
        kinds("! != = == < <= > >="),
        vec![
            TokenType::Bang,
            TokenType::BangEqual,
            TokenType::Equal,
            TokenType::EqualEqual,
            TokenType::Less,
            TokenType::LessEqual,
            TokenType::Greater,
            TokenType::GreaterEqual,
            TokenType::Eof,
        ]
    );
}

#[test]
fn lexeme_is_the_exact_source_text() {
    assert_eq!(
        lex("a != 1.50"),
        vec![
            token(identifier("a"), 1, "a"),
            token(TokenType::BangEqual, 1, "!="),
            token(number(1.5), 1, "1.50"),
            token(TokenType::Eof, 1, ""),
        ]
    );
}

#[test]
fn operator_at_the_end_of_the_source() {
    assert_eq!(kinds("a ="), vec![identifier("a"), TokenType::Equal, TokenType::Eof]);
    assert_eq!(kinds("!"), vec![TokenType::Bang, TokenType::Eof]);
}

#[test]
fn keywords_need_an_exact_match() {
    assert_eq!(
        kinds("and class else false fun for if nil or print return super this true var while"),
        vec![
            TokenType::And,
            TokenType::Class,
            TokenType::Else,
            TokenType::False,
            TokenType::Fun,
            TokenType::For,
            TokenType::If,
            TokenType::Nil,
            TokenType::Or,
            TokenType::Print,
            TokenType::Return,
            TokenType::Super,
            TokenType::This,
            TokenType::True,
            TokenType::Var,
            TokenType::While,
            TokenType::Eof,
        ]
    );
    assert_eq!(
        kinds("android If variable"),
        vec![identifier("android"), identifier("If"), identifier("variable"), TokenType::Eof]
    );
}

#[test]
fn identifiers_take_letters_digits_and_underscores() {
    assert_eq!(
        kinds("a_1 b2c é9"),
        vec![identifier("a_1"), identifier("b2c"), identifier("é9"), TokenType::Eof]
    );
}

#[test]
fn identifier_does_not_start_with_an_underscore() {
    let mut lexer = Lexer::from_source("_a".to_string());
    let tokens = lexer.tokens(&read).unwrap();
    assert_eq!(
        tokens.into_iter().map(|t| t.token_type).collect::<Vec<_>>(),
        vec![identifier("a"), TokenType::Eof]
    );
    assert_eq!(lexer.errors().len(), 1);
}

#[test]
fn numbers_are_runs_of_digits_and_points() {
    assert_eq!(
        kinds("12 3.25 7. 0"),
        vec![number(12.0), number(3.25), number(7.0), number(0.0), TokenType::Eof]
    );
    assert_eq!(kinds("1-2"), vec![number(1.0), TokenType::Minus, number(2.0), TokenType::Eof]);
}

#[test]
fn malformed_number_is_fatal() {
    let mut lexer = Lexer::from_source("var a = 1.2.3;".to_string());
    assert_eq!(
        lexer.tokens(&read),
        Err(LexError::MalformedNumber { line: 1, lexeme: "1.2.3".to_string() })
    );
    let mut lexer = Lexer::from_source("\n\n٣".to_string());
    assert_eq!(
        lexer.tokens(&read),
        Err(LexError::MalformedNumber { line: 3, lexeme: "٣".to_string() })
    );
}

#[test]
fn strings_keep_their_content_and_their_quotes() {
    assert_eq!(
        lex("\"hi there\""),
        vec![
            token(TokenType::String { literal: "hi there".to_string() }, 1, "\"hi there\""),
            token(TokenType::Eof, 1, ""),
        ]
    );
    assert_eq!(
        lex("\"\""),
        vec![
            token(TokenType::String { literal: String::new() }, 1, "\"\""),
            token(TokenType::Eof, 1, ""),
        ]
    );
}

#[test]
fn string_over_lines_is_on_its_last_line() {
    assert_eq!(
        lex("\"a\nb\nc\" x"),
        vec![
            token(TokenType::String { literal: "a\nb\nc".to_string() }, 3, "\"a\nb\nc\""),
            token(identifier("x"), 3, "x"),
            token(TokenType::Eof, 3, ""),
        ]
    );
}

#[test]
fn unterminated_string_is_fatal() {
    let mut lexer = Lexer::from_source("print \"abc".to_string());
    assert_eq!(lexer.tokens(&read), Err(LexError::UnterminatedString { line: 1 }));
    let mut lexer = Lexer::from_source("\"a\nb".to_string());
    assert_eq!(lexer.tokens(&read), Err(LexError::UnterminatedString { line: 2 }));
    let mut lexer = Lexer::from_source("\"".to_string());
    assert_eq!(lexer.tokens(&read), Err(LexError::UnterminatedString { line: 1 }));
}

#[test]
fn comments_run_to_the_end_of_the_line() {
    assert_eq!(
        lex("a // b c\nd"),
        vec![token(identifier("a"), 1, "a"), token(identifier("d"), 2, "d"), token(TokenType::Eof, 2, "")]
    );
    assert_eq!(lex("// only"), vec![token(TokenType::Eof, 1, "")]);
    assert_eq!(
        kinds("1 / 2 // half"),
        vec![number(1.0), TokenType::Slash, number(2.0), TokenType::Eof]
    );
}

#[test]
fn newlines_count_lines_from_one() {
    assert_eq!(
        lex("a\n\nb\n"),
        vec![token(identifier("a"), 1, "a"), token(identifier("b"), 3, "b"), token(TokenType::Eof, 4, "")]
    );
}

#[test]
fn whitespace_is_skipped() {
    assert_eq!(kinds(" \t\r a \x0C b "), vec![identifier("a"), identifier("b"), TokenType::Eof]);
}

#[test]
fn unknown_characters_are_recorded_and_skipped() {
    let mut lexer = Lexer::from_source("a @ b\n# c".to_string());
    let tokens = lexer.tokens(&read).unwrap();
    assert_eq!(
        tokens,
        vec![
            token(identifier("a"), 1, "a"),
            token(identifier("b"), 1, "b"),
            token(identifier("c"), 2, "c"),
            token(TokenType::Eof, 2, ""),
        ]
    );
    assert_eq!(
        lexer.errors(),
        &vec![
            "[line 1] Error : Unexpected character".to_string(),
            "[line 2] Error : Unexpected character".to_string(),
        ]
    );
}

#[test]
fn errors_before_a_fatal_condition_stay_recorded() {
    let mut lexer = Lexer::from_source("@ \"abc".to_string());
    assert!(lexer.tokens(&read).is_err());
    assert_eq!(lexer.errors(), &vec!["[line 1] Error : Unexpected character".to_string()]);
}

#[test]
fn lexer_starts_with_nothing_recorded() {
    let lexer = Lexer::from_source("a".to_string());
    assert!(lexer.errors().is_empty());
}

#[test]
fn the_last_token_is_the_end_marker() {
    for source in ["", "a", "1 + 2", "// c", "\n\n", "@"] {
        let tokens = lex(source);
        assert_eq!(tokens.last().unwrap().token_type, TokenType::Eof);
        assert_eq!(tokens.last().unwrap().lexeme, "");
    }
}

#[test]
fn number_values_come_from_the_reader() {
    let always_seven = |_: &str| Some(7u64);
    let tokens = Lexer::from_source("1 2.5".to_string()).tokens(&always_seven).unwrap();
    assert_eq!(tokens[0].token_type, TokenType::Number { literal: 7 });
    assert_eq!(tokens[1].token_type, TokenType::Number { literal: 7 });
    assert_eq!(tokens[1].lexeme, "2.5");
}

#[test]
fn scanner_hands_out_the_characters() {
    let scanner = Scanner::from_source("aé\n".to_string());
    assert_eq!(scanner.scan().collect::<Vec<char>>(), vec!['a', 'é', '\n']);
}

#[test]
fn number_token_goes_by_the_reply() {
    assert_eq!(
        lox::lexer::number_token(Some(5), 2, "1.5".to_string()),
        Ok(TokenType::Number { literal: 5 })
    );
    assert_eq!(
        lox::lexer::number_token(None, 2, "1.5.5".to_string()),
        Err(LexError::MalformedNumber { line: 2, lexeme: "1.5.5".to_string() })
    );
}

#[test]
fn keyword_lookup() {
    assert_eq!(lox::lexer::try_keyword(&"while".to_string()), Some(TokenType::While));
    assert_eq!(lox::lexer::try_keyword(&"whale".to_string()), None);
    assert_eq!(lox::lexer::try_keyword(&String::new()), None);
}

//! The parser: trees, errors and recovery.
use lox::lexer::{Lexer, Token, TokenType};
use lox::parser::{ParseError, Parser};
use lox::program::{binop, BinaryOp, Declaration, Expr, Literal, LogicalOp, Program, Statement, UnaryOp};

fn read(text: &str) -> Option<u64> {
    text.parse::<f64>().ok().map(f64::to_bits)
}

fn tokens(source: &str) -> Vec<Token> {
    Lexer::from_source(source.to_string()).tokens(&read).unwrap()
}

fn parse(source: &str) -> Result<Program, ParseError> {
    Parser::from_tokens(tokens(source)).parse()
}

fn expression(source: &str) -> Expr {
    let mut program = parse(&format!("{};", source)).unwrap();
    assert_eq!(program.len(), 1);
    match program.remove(0) {
        Declaration::Statement(Statement::Expr(e)) => e,
        other => panic!("not an expression statement: {:?}", other),
    }
}

fn error(message: &str, line: usize, lexeme: &str) -> ParseError {
    ParseError { message: message.to_string(), line, lexeme: lexeme.to_string() }
}

fn num(x: f64) -> Expr {
    Expr::Literal(Literal::Number(x.to_bits()))
}

fn var(name: &str) -> Expr {
    Expr::Literal(Literal::Identifier(name.to_string()))
}

fn unary(op: UnaryOp, e: Expr) -> Expr {
    Expr::Unary(op, Box::new(e))
}

fn logical(l: Expr, op: LogicalOp, r: Expr) -> Expr {
    Expr::Logical(Box::new(l), op, Box::new(r))
}

fn group(e: Expr) -> Expr {
    Expr::Grouping(Box::new(e))
}

fn assign(name: &str, e: Expr) -> Expr {
    Expr::Assignment(name.to_string(), Box::new(e))
}

#[test]
fn empty_program() {
    assert_eq!(parse(""), Ok(vec![]));
}

#[test]
fn no_tokens_at_all_is_an_empty_program() {
    assert_eq!(Parser::from_tokens(vec![]).parse(), Ok(vec![]));
}

#[test]
fn literals() {
    assert_eq!(expression("1.5"), num(1.5));
    assert_eq!(expression("\"s\""), Expr::Literal(Literal::String("s".to_string())));
    assert_eq!(expression("true"), Expr::Literal(Literal::True));
    assert_eq!(expression("false"), Expr::Literal(Literal::False));
    assert_eq!(expression("nil"), Expr::Literal(Literal::Nil));
    assert_eq!(expression("x"), var("x"));
}

#[test]
fn factor_binds_tighter_than_term() {
    assert_eq!(
        expression("1 + 2 * 3"),
        binop(num(1.0), BinaryOp::Plus, binop(num(2.0), BinaryOp::Times, num(3.0)))
    );
    assert_eq!(
        expression("1 * 2 + 3"),
        binop(binop(num(1.0), BinaryOp::Times, num(2.0)), BinaryOp::Plus, num(3.0))
    );
}

#[test]
fn binary_levels_fold_to_the_left() {
    assert_eq!(
        expression("8 - 3 - 2"),
        binop(binop(num(8.0), BinaryOp::Minus, num(3.0)), BinaryOp::Minus, num(2.0))
    );
    assert_eq!(
        expression("8 / 4 / 2"),
        binop(binop(num(8.0), BinaryOp::Div, num(4.0)), BinaryOp::Div, num(2.0))
    );
    assert_eq!(
        expression("1 < 2 < 3"),
        binop(binop(num(1.0), BinaryOp::Less, num(2.0)), BinaryOp::Less, num(3.0))
    );
    assert_eq!(
        expression("1 == 2 != 3"),
        binop(binop(num(1.0), BinaryOp::Equal, num(2.0)), BinaryOp::NotEqual, num(3.0))
    );
}

#[test]
fn the_levels_nest_in_order() {
    // or < and < equality < comparison < term < factor < unary
    assert_eq!(
        expression("a or b and c == d < e + f * -g"),
        logical(
            var("a"),
            LogicalOp::Or,
            logical(
                var("b"),
                LogicalOp::And,
                binop(
                    var("c"),
                    BinaryOp::Equal,
                    binop(
                        var("d"),
                        BinaryOp::Less,
                        binop(
                            var("e"),
                            BinaryOp::Plus,
                            binop(var("f"), BinaryOp::Times, unary(UnaryOp::Negate, var("g")))
                        )
                    )
                )
            )
        )
    );
}

#[test]
fn comparison_operators() {
    assert_eq!(expression("1 <= 2"), binop(num(1.0), BinaryOp::LessEqual, num(2.0)));
    assert_eq!(expression("1 > 2"), binop(num(1.0), BinaryOp::Greater, num(2.0)));
    assert_eq!(expression("1 >= 2"), binop(num(1.0), BinaryOp::GreaterEqual, num(2.0)));
}

#[test]
fn logical_operators_fold_to_the_left() {
    assert_eq!(
        expression("a or b or c"),
        logical(logical(var("a"), LogicalOp::Or, var("b")), LogicalOp::Or, var("c"))
    );
    assert_eq!(
        expression("a and b and c"),
        logical(logical(var("a"), LogicalOp::And, var("b")), LogicalOp::And, var("c"))
    );
}

#[test]
fn prefix_operators_nest() {
    assert_eq!(expression("!!true"), unary(UnaryOp::Not, unary(UnaryOp::Not, Expr::Literal(Literal::True))));
    assert_eq!(expression("-1 - -2"), binop(unary(UnaryOp::Negate, num(1.0)), BinaryOp::Minus, unary(UnaryOp::Negate, num(2.0))));
}

#[test]
fn groups_are_kept_in_the_tree() {
    assert_eq!(
        expression("(1 + 2) * 3"),
        binop(group(binop(num(1.0), BinaryOp::Plus, num(2.0))), BinaryOp::Times, num(3.0))
    );
    assert_eq!(expression("((x))"), group(group(var("x"))));
}

#[test]
fn assignment_folds_to_the_right() {
    assert_eq!(expression("a = b = 3"), assign("a", assign("b", num(3.0))));
    assert_eq!(expression("a = 1 + 2"), assign("a", binop(num(1.0), BinaryOp::Plus, num(2.0))));
}

#[test]
fn assignment_needs_a_bare_identifier() {
    assert_eq!(parse("1 = 2;"), Err(error("Illegal assignment target", 1, "=")));
    assert_eq!(parse("(a) = 2;"), Err(error("Illegal assignment target", 1, "=")));
    assert_eq!(parse("a + b = 2;"), Err(error("Illegal assignment target", 1, "=")));
}

#[test]
fn variable_declarations() {
    assert_eq!(
        parse("var a; var b = 1;"),
        Ok(vec![
            Declaration::Variable { identifier: "a".to_string(), value: None },
            Declaration::Variable { identifier: "b".to_string(), value: Some(num(1.0)) },
        ])
    );
}

#[test]
fn malformed_variable_declarations() {
    assert_eq!(parse("var 1 = 2;").unwrap_err(), error("Malformed variable declaration", 1, "1"));
    assert_eq!(parse("var a 2;").unwrap_err(), error("Malformed variable declaration", 1, "2"));
    assert_eq!(parse("var a = 2").unwrap_err(), error("Missing semicolon", 1, ""));
    assert_eq!(parse("var").unwrap_err(), error("Malformed variable declaration", 1, ""));
}

#[test]
fn print_statement() {
    assert_eq!(parse("print 1;"), Ok(vec![Declaration::Statement(Statement::Print(num(1.0)))]));
    assert_eq!(parse("print 1").unwrap_err(), error("Missing semicolon", 1, ""));
}

#[test]
fn expression_statement_needs_its_semicolon() {
    assert_eq!(parse("1 + 2").unwrap_err(), error("Missing semicolon", 1, ""));
    assert_eq!(parse("1 2;").unwrap_err(), error("Missing semicolon", 1, "2"));
}

#[test]
fn blocks() {
    assert_eq!(parse("{}"), Ok(vec![Declaration::Statement(Statement::Block(vec![]))]));
    assert_eq!(
        parse("{ var a = 1; { print a; } }"),
        Ok(vec![Declaration::Statement(Statement::Block(vec![
            Declaration::Variable { identifier: "a".to_string(), value: Some(num(1.0)) },
            Declaration::Statement(Statement::Block(vec![Declaration::Statement(
                Statement::Print(var("a"))
            )])),
        ]))])
    );
}

#[test]
fn unclosed_block_reaches_the_end() {
    assert_eq!(
        parse("{ print 1;\n").unwrap_err(),
        error("Reached end of input while parsing", 2, "")
    );
}

#[test]
fn if_with_and_without_else() {
    assert_eq!(
        parse("if (a) print 1;"),
        Ok(vec![Declaration::Statement(Statement::IfElse(
            var("a"),
            Box::new(Statement::Print(num(1.0))),
            Box::new(None)
        ))])
    );
    assert_eq!(
        parse("if (a) print 1; else print 2;"),
        Ok(vec![Declaration::Statement(Statement::IfElse(
            var("a"),
            Box::new(Statement::Print(num(1.0))),
            Box::new(Some(Statement::Print(num(2.0))))
        ))])
    );
}

#[test]
fn else_belongs_to_the_nearest_if() {
    assert_eq!(
        parse("if (a) if (b) print 1; else print 2;"),
        Ok(vec![Declaration::Statement(Statement::IfElse(
            var("a"),
            Box::new(Statement::IfElse(
                var("b"),
                Box::new(Statement::Print(num(1.0))),
                Box::new(Some(Statement::Print(num(2.0))))
            )),
            Box::new(None)
        ))])
    );
}

#[test]
fn if_needs_its_parentheses() {
    assert_eq!(
        parse("if a) print 1;").unwrap_err(),
        error("Expected parenthesized expression after if statement", 1, "a")
    );
    assert_eq!(
        parse("if (a print 1;").unwrap_err(),
        error("Reached the end with an if expression not parenthesized correctly", 1, "print")
    );
}

#[test]
fn group_needs_its_closing_parenthesis() {
    assert_eq!(
        parse("(1 + 2;").unwrap_err(),
        error("Failed to find expected closing paren", 1, ";")
    );
    assert_eq!(
        parse("print\n(1").unwrap_err(),
        error("Failed to find expected closing paren", 2, "")
    );
}

#[test]
fn what_starts_no_expression() {
    assert_eq!(parse("1 + ;").unwrap_err(), error("Unable to parse expression", 1, ";"));
    assert_eq!(parse("print *;").unwrap_err(), error("Unable to parse expression", 1, "*"));
    assert_eq!(parse("1 +").unwrap_err(), error("Unable to parse expression", 1, ""));
}

#[test]
fn statement_at_the_end_of_input() {
    assert_eq!(
        parse("if (a)").unwrap_err(),
        error("Reached end of input while parsing", 1, "")
    );
}

#[test]
fn error_carries_the_line_of_the_offending_token() {
    assert_eq!(
        parse("var a = 1;\nvar b = ;\n").unwrap_err(),
        error("Unable to parse expression", 2, ";")
    );
}

#[test]
fn after_an_error_the_parser_steps_over_one_token() {
    // `)` starts nothing: it is stepped over, and `print 1;` parses
    let mut parser = Parser::from_tokens(tokens(") print 1;"));
    assert_eq!(parser.parse(), Err(error("Unable to parse expression", 1, ")")));
    assert_eq!(parser.errors(), &vec![error("Unable to parse expression", 1, ")")]);
}

#[test]
fn errors_cascade_and_all_are_kept() {
    // the error is on `;`; after it comes `2;`, which parses
    let mut parser = Parser::from_tokens(tokens("1 + ; 2; ) 3;"));
    assert_eq!(parser.parse(), Err(error("Unable to parse expression", 1, ";")));
    assert_eq!(
        parser.errors(),
        &vec![
            error("Unable to parse expression", 1, ";"),
            error("Unable to parse expression", 1, ")"),
        ]
    );
}

#[test]
fn parser_starts_with_no_error() {
    let parser = Parser::from_tokens(tokens("1;"));
    assert!(parser.errors().is_empty());
    assert_eq!(parser.tokens.len(), 3);
}

#[test]
fn tokens_without_end_marker_parse_as_with_one() {
    let mut with_marker = tokens("print 1;");
    let marker = with_marker.pop().unwrap();
    assert_eq!(marker.token_type, TokenType::Eof);
    assert_eq!(
        Parser::from_tokens(with_marker).parse(),
        Ok(vec![Declaration::Statement(Statement::Print(num(1.0)))])
    );
}

#[test]
fn operators_are_written_as_read() {
    assert_eq!(BinaryOp::Equal.symbol(), "==");
    assert_eq!(BinaryOp::NotEqual.symbol(), "!=");
    assert_eq!(BinaryOp::Less.symbol(), "<");
    assert_eq!(BinaryOp::LessEqual.symbol(), "<=");
    assert_eq!(BinaryOp::Greater.symbol(), ">");
    assert_eq!(BinaryOp::GreaterEqual.symbol(), ">=");
    assert_eq!(BinaryOp::Plus.symbol(), "+");
    assert_eq!(BinaryOp::Minus.symbol(), "-");
    assert_eq!(BinaryOp::Times.symbol(), "*");
    assert_eq!(BinaryOp::Div.symbol(), "/");
    assert_eq!(UnaryOp::Negate.symbol(), "-");
    assert_eq!(UnaryOp::Not.symbol(), "!");
    assert_eq!(LogicalOp::And.symbol(), "and");
    assert_eq!(LogicalOp::Or.symbol(), "or");
}

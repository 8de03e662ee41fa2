//! The grammar, as functions from tokens to syntax trees.
//!
//! ```text
//! program     := declaration* EOF
//! declaration := "var" IDENT ("=" expr)? ";"  |  statement
//! statement   := "if" "(" expr ")" statement ("else" statement)?
//!              | "print" expr ";"
//!              | "{" declaration* "}"
//!              | expr ";"
//! expr        := assignment
//! assignment  := IDENT "=" assignment | logic_or
//! logic_or    := logic_and ("or" logic_and)*
//! logic_and   := equality ("and" equality)*
//! equality    := comparison (("=="|"!=") comparison)*
//! comparison  := term ((">"|">="|"<"|"<=") term)*
//! term        := factor (("+"|"-") factor)*
//! factor      := unary (("*"|"/") unary)*
//! unary       := ("!"|"-") unary | primary
//! primary     := NUMBER | STRING | "true" | "false" | "nil" | IDENT
//!              | "(" expr ")"
//! ```
//!
//! Each production is a function of the tokens and the index it starts at.
//! It gives the tree and the index after it, or the message of the error and
//! the index of the token it was found at. Beyond the last token every index
//! holds an end-of-input marker.
use vstd::prelude::*;
use crate::error::end_of_input;
use crate::lexer::{TokenKind, TokenView};
use crate::program::{BinaryOp, DeclarationView, ExprView, LiteralView, LogicalOp, StatementView, UnaryOp};

verus! {

/// What a production gives.
pub enum Parsed<T> {
    /// The tree, and the index of the first token after it.
    Done { value: T, next: int },
    /// The message of the error, and the index of the offending token.
    Failed { message: Seq<char>, at: int },
}

/// A parse error as a value: the message, and the line and the lexeme of
/// the offending token.
pub struct ParseFailure {
    pub message: Seq<char>,
    pub line: nat,
    pub lexeme: Seq<char>,
}

/// The token at `pos`; beyond the tokens, an end-of-input marker on the
/// line of the last token.
pub open spec fn token_at(tokens: Seq<TokenView>, pos: int) -> TokenView {
    if 0 <= pos < tokens.len() {
        tokens[pos]
    } else {
        TokenView {
            kind: TokenKind::Eof,
            line: if tokens.len() > 0 {
                tokens.last().line
            } else {
                1
            },
            lexeme: Seq::empty(),
        }
    }
}

/// The kind of the token at `pos`.
pub open spec fn kind_at(tokens: Seq<TokenView>, pos: int) -> TokenKind {
    token_at(tokens, pos).kind
}

/// The error with `message` on the token at `at`.
pub open spec fn failure(tokens: Seq<TokenView>, message: Seq<char>, at: int) -> ParseFailure {
    ParseFailure { message, line: token_at(tokens, at).line, lexeme: token_at(tokens, at).lexeme }
}

/// The number of tokens from `pos` on.
pub open spec fn remaining(tokens: Seq<TokenView>, pos: int) -> nat {
    if pos < tokens.len() {
        (tokens.len() - pos) as nat
    } else {
        0
    }
}

pub open spec fn malformed_declaration() -> Seq<char> {
    "Malformed variable declaration"@
}

pub open spec fn missing_semicolon() -> Seq<char> {
    "Missing semicolon"@
}

pub open spec fn missing_condition() -> Seq<char> {
    "Expected parenthesized expression after if statement"@
}

pub open spec fn unclosed_condition() -> Seq<char> {
    "Reached the end with an if expression not parenthesized correctly"@
}

pub open spec fn unclosed_group() -> Seq<char> {
    "Failed to find expected closing paren"@
}

pub open spec fn no_expression() -> Seq<char> {
    "Unable to parse expression"@
}

pub open spec fn illegal_target() -> Seq<char> {
    "Illegal assignment target"@
}

/// An operator of one of the left-associative levels.
#[derive(Clone, Copy, Debug, PartialEq, Eq, Structural)]
pub enum Operator {
    Binary(BinaryOp),
    Logical(LogicalOp),
}

/// The loosest of the left-associative levels: `or`.
pub const LOGIC_OR: u8 = 0;

/// The level of `and`.
pub const LOGIC_AND: u8 = 1;

/// The level of `==` and `!=`.
pub const EQUALITY: u8 = 2;

/// The level of `<`, `<=`, `>` and `>=`.
pub const COMPARISON: u8 = 3;

/// The level of `+` and `-`.
pub const TERM: u8 = 4;

/// The tightest of the left-associative levels: `*` and `/`.
pub const FACTOR: u8 = 5;

/// The operator that a token of `kind` is at `level`, if it is one there.
pub open spec fn operator(level: int, kind: TokenKind) -> Option<Operator> {
    if level == LOGIC_OR {
        match kind {
            TokenKind::Or => Some(Operator::Logical(LogicalOp::Or)),
            _ => None,
        }
    } else if level == LOGIC_AND {
        match kind {
            TokenKind::And => Some(Operator::Logical(LogicalOp::And)),
            _ => None,
        }
    } else if level == EQUALITY {
        match kind {
            TokenKind::EqualEqual => Some(Operator::Binary(BinaryOp::Equal)),
            TokenKind::BangEqual => Some(Operator::Binary(BinaryOp::NotEqual)),
            _ => None,
        }
    } else if level == COMPARISON {
        match kind {
            TokenKind::Less => Some(Operator::Binary(BinaryOp::Less)),
            TokenKind::LessEqual => Some(Operator::Binary(BinaryOp::LessEqual)),
            TokenKind::Greater => Some(Operator::Binary(BinaryOp::Greater)),
            TokenKind::GreaterEqual => Some(Operator::Binary(BinaryOp::GreaterEqual)),
            _ => None,
        }
    } else if level == TERM {
        match kind {
            TokenKind::Minus => Some(Operator::Binary(BinaryOp::Minus)),
            TokenKind::Plus => Some(Operator::Binary(BinaryOp::Plus)),
            _ => None,
        }
    } else {
        match kind {
            TokenKind::Slash => Some(Operator::Binary(BinaryOp::Div)),
            TokenKind::Star => Some(Operator::Binary(BinaryOp::Times)),
            _ => None,
        }
    }
}

/// The prefix operator that a token of `kind` is, if it is one.
pub open spec fn prefix_operator(kind: TokenKind) -> Option<UnaryOp> {
    match kind {
        TokenKind::Bang => Some(UnaryOp::Not),
        TokenKind::Minus => Some(UnaryOp::Negate),
        _ => None,
    }
}

/// The expression `lhs op rhs`.
pub open spec fn join(op: Operator, lhs: ExprView, rhs: ExprView) -> ExprView {
    match op {
        Operator::Binary(b) => ExprView::Binary(Box::new(lhs), b, Box::new(rhs)),
        Operator::Logical(l) => ExprView::Logical(Box::new(lhs), l, Box::new(rhs)),
    }
}

/// How far above the tightest level a level is; the measure by which the
/// productions that start at the same token call one another.
pub open spec fn height(level: int) -> nat {
    if 0 <= level < FACTOR {
        (FACTOR - level) as nat
    } else {
        0
    }
}

/// `primary`: a literal, an identifier, or an expression in parentheses.
pub open spec fn primary(tokens: Seq<TokenView>, pos: int) -> Parsed<ExprView>
    decreases remaining(tokens, pos), 0nat,
{
    match kind_at(tokens, pos) {
        TokenKind::False => Parsed::Done {
            value: ExprView::Literal(LiteralView::False),
            next: pos + 1,
        },
        TokenKind::True => Parsed::Done { value: ExprView::Literal(LiteralView::True), next: pos + 1 },
        TokenKind::Nil => Parsed::Done { value: ExprView::Literal(LiteralView::Nil), next: pos + 1 },
        TokenKind::Number { literal } => Parsed::Done {
            value: ExprView::Literal(LiteralView::Number(literal)),
            next: pos + 1,
        },
        TokenKind::String { literal } => Parsed::Done {
            value: ExprView::Literal(LiteralView::String(literal)),
            next: pos + 1,
        },
        TokenKind::Identifier { name } => Parsed::Done {
            value: ExprView::Literal(LiteralView::Identifier(name)),
            next: pos + 1,
        },
        TokenKind::LeftParen => match expression(tokens, pos + 1) {
            Parsed::Done { value, next } => if kind_at(tokens, next) == TokenKind::RightParen {
                Parsed::Done { value: ExprView::Grouping(Box::new(value)), next: next + 1 }
            } else {
                Parsed::Failed { message: unclosed_group(), at: next }
            },
            Parsed::Failed { message, at } => Parsed::Failed { message, at },
        },
        _ => Parsed::Failed { message: no_expression(), at: pos },
    }
}

/// `unary`: prefix operators, then a primary.
pub open spec fn unary(tokens: Seq<TokenView>, pos: int) -> Parsed<ExprView>
    decreases remaining(tokens, pos), 1nat,
{
    match prefix_operator(kind_at(tokens, pos)) {
        Some(op) => match unary(tokens, pos + 1) {
            Parsed::Done { value, next } => Parsed::Done {
                value: ExprView::Unary(op, Box::new(value)),
                next,
            },
            Parsed::Failed { message, at } => Parsed::Failed { message, at },
        },
        None => primary(tokens, pos),
    }
}

/// An operand of `level`: an expression of the next tighter level.
pub open spec fn operand(tokens: Seq<TokenView>, level: int, pos: int) -> Parsed<ExprView>
    decreases remaining(tokens, pos), 3 * height(level) + 2,
{
    if 0 <= level < FACTOR {
        binary(tokens, level + 1, pos)
    } else {
        unary(tokens, pos)
    }
}

/// A left-associative level: an operand, then operators of the level with
/// an operand each, folded to the left.
pub open spec fn binary(tokens: Seq<TokenView>, level: int, pos: int) -> Parsed<ExprView>
    decreases remaining(tokens, pos), 3 * height(level) + 4,
{
    match operand(tokens, level, pos) {
        Parsed::Done { value, next } => if pos < next {
            binary_rest(tokens, level, value, next)
        } else {
            // never taken: an operand holds a token
            Parsed::Failed { message: Seq::empty(), at: pos }
        },
        Parsed::Failed { message, at } => Parsed::Failed { message, at },
    }
}

/// The rest of a left-associative level, after the expression `lhs` that
/// ends before `pos`.
pub open spec fn binary_rest(tokens: Seq<TokenView>, level: int, lhs: ExprView, pos: int) -> Parsed<
    ExprView,
>
    decreases remaining(tokens, pos), 3 * height(level) + 3,
{
    match operator(level, kind_at(tokens, pos)) {
        Some(op) => match operand(tokens, level, pos + 1) {
            Parsed::Done { value, next } => if pos + 1 < next {
                binary_rest(tokens, level, join(op, lhs, value), next)
            } else {
                // never taken: an operand holds a token
                Parsed::Failed { message: Seq::empty(), at: pos }
            },
            Parsed::Failed { message, at } => Parsed::Failed { message, at },
        },
        None => Parsed::Done { value: lhs, next: pos },
    }
}

/// `assignment`: right-associative, and its target a bare identifier.
pub open spec fn assignment(tokens: Seq<TokenView>, pos: int) -> Parsed<ExprView>
    decreases remaining(tokens, pos), 3 * height(0) + 5,
{
    match binary(tokens, LOGIC_OR as int, pos) {
        Parsed::Done { value: lhs, next } => if kind_at(tokens, next) == TokenKind::Equal {
            if pos < next {
                match assignment(tokens, next + 1) {
                    Parsed::Done { value: rhs, next: end } => match lhs {
                        ExprView::Literal(LiteralView::Identifier(name)) => Parsed::Done {
                            value: ExprView::Assignment(name, Box::new(rhs)),
                            next: end,
                        },
                        _ => Parsed::Failed { message: illegal_target(), at: next },
                    },
                    Parsed::Failed { message, at } => Parsed::Failed { message, at },
                }
            } else {
                // never taken: the left side holds a token
                Parsed::Failed { message: Seq::empty(), at: pos }
            }
        } else {
            Parsed::Done { value: lhs, next }
        },
        Parsed::Failed { message, at } => Parsed::Failed { message, at },
    }
}

/// `expr`.
pub open spec fn expression(tokens: Seq<TokenView>, pos: int) -> Parsed<ExprView>
    decreases remaining(tokens, pos), 3 * height(0) + 6,
{
    assignment(tokens, pos)
}

/// An expression and the semicolon that ends it.
pub open spec fn terminated(tokens: Seq<TokenView>, pos: int) -> Parsed<ExprView> {
    match expression(tokens, pos) {
        Parsed::Done { value, next } => if kind_at(tokens, next) == TokenKind::SemiColon {
            Parsed::Done { value, next: next + 1 }
        } else {
            Parsed::Failed { message: missing_semicolon(), at: next }
        },
        Parsed::Failed { message, at } => Parsed::Failed { message, at },
    }
}

/// A variable declaration, whose `var` is at `pos`.
pub open spec fn var_declaration(tokens: Seq<TokenView>, pos: int) -> Parsed<DeclarationView> {
    match kind_at(tokens, pos + 1) {
        TokenKind::Identifier { name } => match kind_at(tokens, pos + 2) {
            TokenKind::Equal => match terminated(tokens, pos + 3) {
                Parsed::Done { value, next } => Parsed::Done {
                    value: DeclarationView::Variable { identifier: name, value: Some(value) },
                    next,
                },
                Parsed::Failed { message, at } => Parsed::Failed { message, at },
            },
            TokenKind::SemiColon => Parsed::Done {
                value: DeclarationView::Variable { identifier: name, value: None },
                next: pos + 3,
            },
            _ => Parsed::Failed { message: malformed_declaration(), at: pos + 2 },
        },
        _ => Parsed::Failed { message: malformed_declaration(), at: pos + 1 },
    }
}

/// `statement`.
pub open spec fn statement(tokens: Seq<TokenView>, pos: int) -> Parsed<StatementView>
    decreases remaining(tokens, pos), 0nat,
{
    match kind_at(tokens, pos) {
        TokenKind::If => if kind_at(tokens, pos + 1) != TokenKind::LeftParen {
            Parsed::Failed { message: missing_condition(), at: pos + 1 }
        } else {
            match expression(tokens, pos + 2) {
                Parsed::Done { value: condition, next } => if kind_at(tokens, next)
                    != TokenKind::RightParen {
                    Parsed::Failed { message: unclosed_condition(), at: next }
                } else if next <= pos {
                    // never taken: the condition starts after the `if`
                    Parsed::Failed { message: Seq::empty(), at: pos }
                } else {
                    match statement(tokens, next + 1) {
                        Parsed::Done { value: then_branch, next: after_then } => if kind_at(
                            tokens,
                            after_then,
                        ) != TokenKind::Else {
                            Parsed::Done {
                                value: StatementView::IfElse(
                                    condition,
                                    Box::new(then_branch),
                                    None,
                                ),
                                next: after_then,
                            }
                        } else if after_then <= pos {
                            // never taken: a statement holds a token
                            Parsed::Failed { message: Seq::empty(), at: pos }
                        } else {
                            match statement(tokens, after_then + 1) {
                                Parsed::Done { value: else_branch, next: end } => Parsed::Done {
                                    value: StatementView::IfElse(
                                        condition,
                                        Box::new(then_branch),
                                        Some(Box::new(else_branch)),
                                    ),
                                    next: end,
                                },
                                Parsed::Failed { message, at } => Parsed::Failed { message, at },
                            }
                        },
                        Parsed::Failed { message, at } => Parsed::Failed { message, at },
                    }
                },
                Parsed::Failed { message, at } => Parsed::Failed { message, at },
            }
        },
        TokenKind::Print => match terminated(tokens, pos + 1) {
            Parsed::Done { value, next } => Parsed::Done { value: StatementView::Print(value), next },
            Parsed::Failed { message, at } => Parsed::Failed { message, at },
        },
        TokenKind::Eof => Parsed::Failed { message: end_of_input(), at: pos },
        TokenKind::LeftBrace => match block(tokens, pos + 1) {
            Parsed::Done { value, next } => Parsed::Done { value: StatementView::Block(value), next },
            Parsed::Failed { message, at } => Parsed::Failed { message, at },
        },
        _ => match terminated(tokens, pos) {
            Parsed::Done { value, next } => Parsed::Done { value: StatementView::Expr(value), next },
            Parsed::Failed { message, at } => Parsed::Failed { message, at },
        },
    }
}

/// `declaration`.
pub open spec fn declaration(tokens: Seq<TokenView>, pos: int) -> Parsed<DeclarationView>
    decreases remaining(tokens, pos), 1nat,
{
    match kind_at(tokens, pos) {
        TokenKind::Var => var_declaration(tokens, pos),
        _ => match statement(tokens, pos) {
            Parsed::Done { value, next } => Parsed::Done {
                value: DeclarationView::Statement(value),
                next,
            },
            Parsed::Failed { message, at } => Parsed::Failed { message, at },
        },
    }
}

/// The declarations of a block from `pos` on, up to the brace that closes it.
pub open spec fn block(tokens: Seq<TokenView>, pos: int) -> Parsed<Seq<DeclarationView>>
    decreases remaining(tokens, pos), 2nat,
{
    match kind_at(tokens, pos) {
        TokenKind::RightBrace => Parsed::Done { value: Seq::empty(), next: pos + 1 },
        _ => match declaration(tokens, pos) {
            Parsed::Done { value: first, next } => if pos < next <= tokens.len() {
                match block(tokens, next) {
                    Parsed::Done { value: others, next: end } => Parsed::Done {
                        value: seq![first] + others,
                        next: end,
                    },
                    Parsed::Failed { message, at } => Parsed::Failed { message, at },
                }
            } else {
                // never taken: a declaration holds a token
                Parsed::Failed { message: Seq::empty(), at: pos }
            },
            Parsed::Failed { message, at } => Parsed::Failed { message, at },
        },
    }
}

/// Whether a production that started at `pos` moved forward: a tree takes
/// at least one token, and an error is found at or after the start.
pub open spec fn forward<T>(pos: int, parsed: Parsed<T>) -> bool {
    match parsed {
        Parsed::Done { value, next } => pos < next,
        Parsed::Failed { message, at } => pos <= at,
    }
}

/// A primary moves forward.
pub proof fn primary_moves_on(tokens: Seq<TokenView>, pos: int)
    ensures
        forward(pos, primary(tokens, pos)),
    decreases remaining(tokens, pos), 0nat,
{
    if kind_at(tokens, pos) == TokenKind::LeftParen {
        expression_moves_on(tokens, pos + 1);
    }
}

/// A unary expression moves forward.
pub proof fn unary_moves_on(tokens: Seq<TokenView>, pos: int)
    ensures
        forward(pos, unary(tokens, pos)),
    decreases remaining(tokens, pos), 1nat,
{
    match prefix_operator(kind_at(tokens, pos)) {
        Some(op) => {
            unary_moves_on(tokens, pos + 1);
        },
        None => {
            primary_moves_on(tokens, pos);
        },
    }
}

/// An operand of a level moves forward.
pub proof fn operand_moves_on(tokens: Seq<TokenView>, level: int, pos: int)
    ensures
        forward(pos, operand(tokens, level, pos)),
    decreases remaining(tokens, pos), 3 * height(level) + 2,
{
    if 0 <= level < FACTOR {
        binary_moves_on(tokens, level + 1, pos);
    } else {
        unary_moves_on(tokens, pos);
    }
}

/// The rest of a level ends, or fails, at or after where it starts.
pub proof fn binary_rest_moves_on(tokens: Seq<TokenView>, level: int, lhs: ExprView, pos: int)
    ensures
        match binary_rest(tokens, level, lhs, pos) {
            Parsed::Done { value, next } => pos <= next,
            Parsed::Failed { message, at } => pos <= at,
        },
    decreases remaining(tokens, pos), 3 * height(level) + 3,
{
    match operator(level, kind_at(tokens, pos)) {
        Some(op) => {
            operand_moves_on(tokens, level, pos + 1);
            match operand(tokens, level, pos + 1) {
                Parsed::Done { value, next } => {
                    binary_rest_moves_on(tokens, level, join(op, lhs, value), next);
                },
                Parsed::Failed { .. } => {},
            }
        },
        None => {},
    }
}

/// A left-associative level moves forward.
pub proof fn binary_moves_on(tokens: Seq<TokenView>, level: int, pos: int)
    ensures
        forward(pos, binary(tokens, level, pos)),
    decreases remaining(tokens, pos), 3 * height(level) + 4,
{
    operand_moves_on(tokens, level, pos);
    match operand(tokens, level, pos) {
        Parsed::Done { value, next } => {
            binary_rest_moves_on(tokens, level, value, next);
        },
        Parsed::Failed { .. } => {},
    }
}

/// An assignment moves forward.
pub proof fn assignment_moves_on(tokens: Seq<TokenView>, pos: int)
    ensures
        forward(pos, assignment(tokens, pos)),
    decreases remaining(tokens, pos), 3 * height(0) + 5,
{
    binary_moves_on(tokens, LOGIC_OR as int, pos);
    match binary(tokens, LOGIC_OR as int, pos) {
        Parsed::Done { value, next } => {
            if kind_at(tokens, next) == TokenKind::Equal {
                assignment_moves_on(tokens, next + 1);
            }
        },
        Parsed::Failed { .. } => {},
    }
}

/// An expression moves forward.
pub proof fn expression_moves_on(tokens: Seq<TokenView>, pos: int)
    ensures
        forward(pos, expression(tokens, pos)),
        forward(pos, terminated(tokens, pos)),
    decreases remaining(tokens, pos), 3 * height(0) + 6,
{
    assignment_moves_on(tokens, pos);
}

/// A statement moves forward.
pub proof fn statement_moves_on(tokens: Seq<TokenView>, pos: int)
    ensures
        forward(pos, statement(tokens, pos)),
    decreases remaining(tokens, pos), 0nat,
{
    match kind_at(tokens, pos) {
        TokenKind::If => {
            if kind_at(tokens, pos + 1) == TokenKind::LeftParen {
                expression_moves_on(tokens, pos + 2);
                match expression(tokens, pos + 2) {
                    Parsed::Done { value, next } => {
                        if kind_at(tokens, next) == TokenKind::RightParen {
                            statement_moves_on(tokens, next + 1);
                            match statement(tokens, next + 1) {
                                Parsed::Done { value, next: after_then } => {
                                    if kind_at(tokens, after_then) == TokenKind::Else {
                                        statement_moves_on(tokens, after_then + 1);
                                    }
                                },
                                Parsed::Failed { .. } => {},
                            }
                        }
                    },
                    Parsed::Failed { .. } => {},
                }
            }
        },
        TokenKind::Print => {
            expression_moves_on(tokens, pos + 1);
        },
        TokenKind::Eof => {},
        TokenKind::LeftBrace => {
            block_moves_on(tokens, pos + 1);
        },
        _ => {
            expression_moves_on(tokens, pos);
        },
    }
}

/// A declaration moves forward.
pub proof fn declaration_moves_on(tokens: Seq<TokenView>, pos: int)
    ensures
        forward(pos, declaration(tokens, pos)),
    decreases remaining(tokens, pos), 1nat,
{
    match kind_at(tokens, pos) {
        TokenKind::Var => {
            expression_moves_on(tokens, pos + 3);
        },
        _ => {
            statement_moves_on(tokens, pos);
        },
    }
}

/// The body of a block moves forward.
pub proof fn block_moves_on(tokens: Seq<TokenView>, pos: int)
    ensures
        forward(pos, block(tokens, pos)),
    decreases remaining(tokens, pos), 2nat,
{
    match kind_at(tokens, pos) {
        TokenKind::RightBrace => {},
        _ => {
            declaration_moves_on(tokens, pos);
            match declaration(tokens, pos) {
                Parsed::Done { value, next } => {
                    if pos < next <= tokens.len() {
                        block_moves_on(tokens, next);
                    }
                },
                Parsed::Failed { .. } => {},
            }
        },
    }
}

/// What parsing a whole program gives: the declarations that parsed, and
/// the errors of those that did not, both in source order.
pub struct Outcome {
    pub declarations: Seq<DeclarationView>,
    pub errors: Seq<ParseFailure>,
}

/// `program` from `pos` on: declarations up to the end-of-input marker.
/// After an error the parser steps over the offending token and tries a
/// declaration again.
#[verifier::opaque]
pub open spec fn program_from(tokens: Seq<TokenView>, pos: int) -> Outcome
    decreases remaining(tokens, pos), 3nat,
{
    match kind_at(tokens, pos) {
        TokenKind::Eof => Outcome { declarations: Seq::empty(), errors: Seq::empty() },
        _ => match declaration(tokens, pos) {
            Parsed::Done { value, next } => if pos < next {
                let rest = program_from(tokens, next);
                Outcome { declarations: seq![value] + rest.declarations, errors: rest.errors }
            } else {
                // never taken: a declaration holds a token
                Outcome { declarations: Seq::empty(), errors: Seq::empty() }
            },
            Parsed::Failed { message, at } => if pos <= at {
                let rest = program_from(tokens, at + 1);
                Outcome {
                    declarations: rest.declarations,
                    errors: seq![failure(tokens, message, at)] + rest.errors,
                }
            } else {
                // never taken: an error is found at or after the start
                Outcome { declarations: Seq::empty(), errors: Seq::empty() }
            },
        },
    }
}

/// `program`.
pub open spec fn program(tokens: Seq<TokenView>) -> Outcome {
    program_from(tokens, 0)
}

/// Beyond the tokens there is no declaration and no error.
pub proof fn program_beyond(tokens: Seq<TokenView>, pos: int)
    requires
        pos >= tokens.len(),
    ensures
        program_from(tokens, pos) == (Outcome { declarations: Seq::empty(), errors: Seq::empty() }),
{
    reveal(program_from);
}

/// `rest` after the declarations and errors that came before it.
pub open spec fn collected(
    declarations: Seq<DeclarationView>,
    errors: Seq<ParseFailure>,
    rest: Outcome,
) -> Outcome {
    Outcome { declarations: declarations + rest.declarations, errors: errors + rest.errors }
}

/// One declaration unfolded: a program from `pos` after `declarations` and
/// `errors` is the program from where the declaration at `pos` ends, or
/// from behind its offending token, after what the declaration adds to them.
pub proof fn program_step(
    tokens: Seq<TokenView>,
    pos: int,
    declarations: Seq<DeclarationView>,
    errors: Seq<ParseFailure>,
)
    ensures
        collected(declarations, errors, program_from(tokens, pos)) == if kind_at(tokens, pos)
            == TokenKind::Eof {
            Outcome { declarations, errors }
        } else {
            match declaration(tokens, pos) {
                Parsed::Done { value, next } => if pos < next {
                    collected(declarations.push(value), errors, program_from(tokens, next))
                } else {
                    Outcome { declarations, errors }
                },
                Parsed::Failed { message, at } => if pos <= at {
                    collected(
                        declarations,
                        errors.push(failure(tokens, message, at)),
                        program_from(tokens, at + 1),
                    )
                } else {
                    Outcome { declarations, errors }
                },
            }
        },
{
    reveal(program_from);
    let whole = program_from(tokens, pos);
    if kind_at(tokens, pos) == TokenKind::Eof {
        assert(declarations + whole.declarations =~= declarations);
        assert(errors + whole.errors =~= errors);
    } else {
        match declaration(tokens, pos) {
            Parsed::Done { value, next } => {
                if pos < next {
                    let rest = program_from(tokens, next);
                    assert(declarations + (seq![value] + rest.declarations) =~= declarations.push(
                        value,
                    ) + rest.declarations);
                } else {
                    assert(declarations + whole.declarations =~= declarations);
                    assert(errors + whole.errors =~= errors);
                }
            },
            Parsed::Failed { message, at } => {
                if pos <= at {
                    let rest = program_from(tokens, at + 1);
                    let e = failure(tokens, message, at);
                    assert(errors + (seq![e] + rest.errors) =~= errors.push(e) + rest.errors);
                } else {
                    assert(declarations + whole.declarations =~= declarations);
                    assert(errors + whole.errors =~= errors);
                }
            },
        }
    }
}

} // verus!

//! The recursive-descent parser.
//!
//! One method per production of [`crate::grammar`]; each computes exactly
//! what the production's function gives, and leaves the parser on the token
//! after the tree or on the offending token.
use vstd::prelude::*;
use vstd::string::StringExecFns;
use crate::grammar;
use crate::grammar::{collected, failure, program_beyond, program_step, height, kind_at, Operator, Parsed, ParseFailure, EQUALITY, COMPARISON, FACTOR, LOGIC_AND, LOGIC_OR, TERM};
use crate::lexer::{token_views, Token, TokenKind, TokenType};
use crate::program::{binop, declaration_views, block_view, BinaryOp, Declaration, Expr, Literal, LogicalOp, Program, Statement, UnaryOp};

verus! {

/// A parse error: the message, and the line and the lexeme of the
/// offending token.
#[derive(Debug, PartialEq)]
pub struct ParseError {
    pub message: String,
    pub line: usize,
    pub lexeme: String,
}

impl View for ParseError {
    type V = ParseFailure;

    open spec fn view(&self) -> ParseFailure {
        ParseFailure { message: self.message@, line: self.line as nat, lexeme: self.lexeme@ }
    }
}

impl Clone for ParseError {
    fn clone(&self) -> (copy: Self)
        ensures
            copy@ == self@,
    {
        ParseError { message: self.message.clone(), line: self.line, lexeme: self.lexeme.clone() }
    }
}

/// The values of a sequence of parse errors.
pub open spec fn failures(errors: Seq<ParseError>) -> Seq<ParseFailure> {
    errors.map_values(|e: ParseError| e@)
}

/// Builds the syntax tree of a sequence of tokens.
pub struct Parser {
    pub tokens: Vec<Token>,
    current: usize,
    errors: Vec<ParseError>,
}

/// The operator that a token is at `level`, if it is one there.
fn operator_at(level: u8, token_type: &TokenType) -> (r: Option<Operator>)
    ensures
        r == grammar::operator(level as int, token_type@),
{
    if level == LOGIC_OR {
        match token_type {
            TokenType::Or => Some(Operator::Logical(LogicalOp::Or)),
            _ => None,
        }
    } else if level == LOGIC_AND {
        match token_type {
            TokenType::And => Some(Operator::Logical(LogicalOp::And)),
            _ => None,
        }
    } else if level == EQUALITY {
        match token_type {
            TokenType::EqualEqual => Some(Operator::Binary(BinaryOp::Equal)),
            TokenType::BangEqual => Some(Operator::Binary(BinaryOp::NotEqual)),
            _ => None,
        }
    } else if level == COMPARISON {
        match token_type {
            TokenType::Less => Some(Operator::Binary(BinaryOp::Less)),
            TokenType::LessEqual => Some(Operator::Binary(BinaryOp::LessEqual)),
            TokenType::Greater => Some(Operator::Binary(BinaryOp::Greater)),
            TokenType::GreaterEqual => Some(Operator::Binary(BinaryOp::GreaterEqual)),
            _ => None,
        }
    } else if level == TERM {
        match token_type {
            TokenType::Minus => Some(Operator::Binary(BinaryOp::Minus)),
            TokenType::Plus => Some(Operator::Binary(BinaryOp::Plus)),
            _ => None,
        }
    } else {
        match token_type {
            TokenType::Slash => Some(Operator::Binary(BinaryOp::Div)),
            TokenType::Star => Some(Operator::Binary(BinaryOp::Times)),
            _ => None,
        }
    }
}

/// The prefix operator that a token is, if it is one.
fn to_unary_op(token_type: &TokenType) -> (r: Option<UnaryOp>)
    ensures
        r == grammar::prefix_operator(token_type@),
{
    match token_type {
        TokenType::Bang => Some(UnaryOp::Not),
        TokenType::Minus => Some(UnaryOp::Negate),
        _ => None,
    }
}

/// The expression `lhs op rhs`.
fn join(op: Operator, lhs: Expr, rhs: Expr) -> (e: Expr)
    ensures
        e@ == grammar::join(op, lhs@, rhs@),
{
    match op {
        Operator::Binary(b) => binop(lhs, b, rhs),
        Operator::Logical(l) => Expr::Logical(Box::new(lhs), l, Box::new(rhs)),
    }
}

impl Parser {
    /// The index of the token the parser is on.
    pub closed spec fn position(&self) -> int {
        self.current as int
    }

    /// The errors found so far, oldest first.
    pub closed spec fn reported(&self) -> Seq<ParseFailure> {
        failures(self.errors@)
    }

    /// The tokens, as values.
    pub closed spec fn input(&self) -> Seq<crate::lexer::TokenView> {
        token_views(self.tokens@)
    }

    /// Whether `after` is this parser moved on as `expected` says, with `r`
    /// what was parsed.
    spec fn follows<T: View>(&self, after: &Parser, r: Result<T, ParseError>, expected: Parsed<T::V>) -> bool {
        &&& after.tokens == self.tokens
        &&& after.errors == self.errors
        &&& after.current <= after.tokens.len()
        &&& match expected {
            Parsed::Done { value, next } => {
                &&& r matches Ok(v)
                &&& v@ == value
                &&& after.current == next
                &&& self.current < next
            },
            Parsed::Failed { message, at } => {
                &&& r matches Err(e)
                &&& e@ == failure(self.input(), message, at)
                &&& after.current == at
                &&& self.current <= at
            },
        }
    }

    /// Whether the parser is on a token or right after the last.
    spec fn in_bounds(&self) -> bool {
        self.current <= self.tokens.len()
    }

    /// A parser at the first of `tokens`, with no error found.
    pub fn from_tokens(tokens: Vec<Token>) -> (parser: Self)
        ensures
            parser.input() == token_views(tokens@),
            parser.position() == 0,
            parser.reported() == Seq::<ParseFailure>::empty(),
    {
        let parser = Parser { tokens, current: 0, errors: Vec::new() };
        assert(failures(parser.errors@) =~= Seq::<ParseFailure>::empty());
        parser
    }

    /// The errors found so far, oldest first.
    pub fn errors(&self) -> (errors: &Vec<ParseError>)
        ensures
            failures(errors@) == self.reported(),
    {
        &self.errors
    }

    /// The type of the current token; `None` beyond the tokens.
    fn peek_token_type(&self) -> (r: Option<&TokenType>)
        ensures
            match r {
                Some(t) => self.current < self.tokens.len() && *t
                    == self.tokens[self.current as int].token_type && t@ == kind_at(
                    self.input(),
                    self.current as int,
                ),
                None => self.current >= self.tokens.len() && kind_at(
                    self.input(),
                    self.current as int,
                ) == TokenKind::Eof,
            },
    {
        if self.current < self.tokens.len() {
            Some(&self.tokens[self.current].token_type)
        } else {
            None
        }
    }

    /// Steps over the current token.
    fn consume(&mut self)
        requires
            old(self).current < old(self).tokens.len(),
        ensures
            final(self).tokens == old(self).tokens,
            final(self).errors == old(self).errors,
            final(self).current == old(self).current + 1,
    {
        self.current += 1;
    }

    /// The error with `message` on the current token.
    fn error_here(&self, message: &str) -> (e: ParseError)
        ensures
            e@ == failure(self.input(), message@, self.current as int),
    {
        if self.current < self.tokens.len() {
            let token = &self.tokens[self.current];
            ParseError {
                message: String::from_str(message),
                line: token.line,
                lexeme: token.lexeme.clone(),
            }
        } else {
            let line: usize = if self.tokens.len() > 0 {
                self.tokens[self.tokens.len() - 1].line
            } else {
                1
            };
            ParseError { message: String::from_str(message), line, lexeme: String::new() }
        }
    }

    /// `primary`.
    fn primary(&mut self) -> (r: Result<Expr, ParseError>)
        requires
            old(self).in_bounds(),
        ensures
            old(self).follows(final(self), r, grammar::primary(old(self).input(), old(self).current as int)),
        decreases old(self).tokens.len() - old(self).current, 0nat,
    {
        let literal = match self.peek_token_type() {
            Some(TokenType::False) => Some(Literal::False),
            Some(TokenType::True) => Some(Literal::True),
            Some(TokenType::Nil) => Some(Literal::Nil),
            Some(TokenType::Number { literal }) => Some(Literal::Number(*literal)),
            Some(TokenType::String { literal }) => Some(Literal::String(literal.clone())),
            Some(TokenType::Identifier { name }) => Some(Literal::Identifier(name.clone())),
            _ => None,
        };
        match literal {
            Some(l) => {
                self.consume();
                Ok(Expr::Literal(l))
            },
            None => {
                let opens = match self.peek_token_type() {
                    Some(TokenType::LeftParen) => true,
                    _ => false,
                };
                if !opens {
                    return Err(self.error_here("Unable to parse expression"));
                }
                self.consume();
                match self.expr() {
                    Ok(inner) => {
                        let closes = match self.peek_token_type() {
                            Some(TokenType::RightParen) => true,
                            _ => false,
                        };
                        if closes {
                            self.consume();
                            Ok(Expr::Grouping(Box::new(inner)))
                        } else {
                            Err(self.error_here("Failed to find expected closing paren"))
                        }
                    },
                    Err(e) => Err(e),
                }
            },
        }
    }

    /// `unary`.
    fn unary(&mut self) -> (r: Result<Expr, ParseError>)
        requires
            old(self).in_bounds(),
        ensures
            old(self).follows(final(self), r, grammar::unary(old(self).input(), old(self).current as int)),
        decreases old(self).tokens.len() - old(self).current, 1nat,
    {
        let prefix = match self.peek_token_type() {
            Some(t) => to_unary_op(t),
            None => None,
        };
        match prefix {
            Some(op) => {
                self.consume();
                match self.unary() {
                    Ok(operand) => Ok(Expr::Unary(op, Box::new(operand))),
                    Err(e) => Err(e),
                }
            },
            None => self.primary(),
        }
    }

    /// `factor`.
    fn factor(&mut self) -> (r: Result<Expr, ParseError>)
        requires
            old(self).in_bounds(),
        ensures
            old(self).follows(
                final(self),
                r,
                grammar::binary(old(self).input(), FACTOR as int, old(self).current as int),
            ),
        decreases old(self).tokens.len() - old(self).current, 5 * height(FACTOR as int) + 7,
    {
        self.binary(FACTOR)
    }

    /// `term`.
    fn term(&mut self) -> (r: Result<Expr, ParseError>)
        requires
            old(self).in_bounds(),
        ensures
            old(self).follows(
                final(self),
                r,
                grammar::binary(old(self).input(), TERM as int, old(self).current as int),
            ),
        decreases old(self).tokens.len() - old(self).current, 5 * height(TERM as int) + 7,
    {
        self.binary(TERM)
    }

    /// `comparison`.
    fn comparison(&mut self) -> (r: Result<Expr, ParseError>)
        requires
            old(self).in_bounds(),
        ensures
            old(self).follows(
                final(self),
                r,
                grammar::binary(old(self).input(), COMPARISON as int, old(self).current as int),
            ),
        decreases old(self).tokens.len() - old(self).current, 5 * height(COMPARISON as int) + 7,
    {
        self.binary(COMPARISON)
    }

    /// `equality`.
    fn equality(&mut self) -> (r: Result<Expr, ParseError>)
        requires
            old(self).in_bounds(),
        ensures
            old(self).follows(
                final(self),
                r,
                grammar::binary(old(self).input(), EQUALITY as int, old(self).current as int),
            ),
        decreases old(self).tokens.len() - old(self).current, 5 * height(EQUALITY as int) + 7,
    {
        self.binary(EQUALITY)
    }

    /// `logic_and`.
    fn logic_and(&mut self) -> (r: Result<Expr, ParseError>)
        requires
            old(self).in_bounds(),
        ensures
            old(self).follows(
                final(self),
                r,
                grammar::binary(old(self).input(), LOGIC_AND as int, old(self).current as int),
            ),
        decreases old(self).tokens.len() - old(self).current, 5 * height(LOGIC_AND as int) + 7,
    {
        self.binary(LOGIC_AND)
    }

    /// `logic_or`.
    fn logic_or(&mut self) -> (r: Result<Expr, ParseError>)
        requires
            old(self).in_bounds(),
        ensures
            old(self).follows(
                final(self),
                r,
                grammar::binary(old(self).input(), LOGIC_OR as int, old(self).current as int),
            ),
        decreases old(self).tokens.len() - old(self).current, 5 * height(LOGIC_OR as int) + 7,
    {
        self.binary(LOGIC_OR)
    }

    /// An operand of `level`: an expression of the next tighter level.
    fn operand(&mut self, level: u8) -> (r: Result<Expr, ParseError>)
        requires
            old(self).in_bounds(),
            level <= FACTOR,
        ensures
            old(self).follows(
                final(self),
                r,
                grammar::operand(old(self).input(), level as int, old(self).current as int),
            ),
        decreases old(self).tokens.len() - old(self).current, 5 * height(level as int) + 3,
    {
        if level == LOGIC_OR {
            self.logic_and()
        } else if level == LOGIC_AND {
            self.equality()
        } else if level == EQUALITY {
            self.comparison()
        } else if level == COMPARISON {
            self.term()
        } else if level == TERM {
            self.factor()
        } else {
            self.unary()
        }
    }

    /// A left-associative level: an operand, then operators of the level
    /// with an operand each, folded to the left.
    fn binary(&mut self, level: u8) -> (r: Result<Expr, ParseError>)
        requires
            old(self).in_bounds(),
            level <= FACTOR,
        ensures
            old(self).follows(
                final(self),
                r,
                grammar::binary(old(self).input(), level as int, old(self).current as int),
            ),
        decreases old(self).tokens.len() - old(self).current, 5 * height(level as int) + 5,
    {
        let ghost tokens = self.input();
        let ghost start = self.current as int;
        let mut lhs = match self.operand(level) {
            Ok(e) => e,
            Err(e) => {
                return Err(e);
            },
        };
        loop
            invariant
                self.tokens == old(self).tokens,
                self.errors == old(self).errors,
                self.in_bounds(),
                level <= FACTOR,
                tokens == self.input(),
                start == old(self).current,
                start < self.current,
                grammar::binary(tokens, level as int, start) == grammar::binary_rest(
                    tokens,
                    level as int,
                    lhs@,
                    self.current as int,
                ),
            decreases self.tokens.len() - self.current,
        {
            let found = match self.peek_token_type() {
                Some(t) => operator_at(level, t),
                None => None,
            };
            match found {
                Some(op) => {
                    self.consume();
                    match self.operand(level) {
                        Ok(rhs) => {
                            lhs = join(op, lhs, rhs);
                        },
                        Err(e) => {
                            return Err(e);
                        },
                    }
                },
                None => {
                    return Ok(lhs);
                },
            }
        }
    }

    /// `assignment`.
    fn assignment(&mut self) -> (r: Result<Expr, ParseError>)
        requires
            old(self).in_bounds(),
        ensures
            old(self).follows(final(self), r, grammar::assignment(old(self).input(), old(self).current as int)),
        decreases old(self).tokens.len() - old(self).current, 5 * height(0) + 8,
    {
        let lhs = match self.logic_or() {
            Ok(e) => e,
            Err(e) => {
                return Err(e);
            },
        };
        let assigns = match self.peek_token_type() {
            Some(TokenType::Equal) => true,
            _ => false,
        };
        if !assigns {
            return Ok(lhs);
        }
        let equals = self.current;
        self.consume();
        match self.assignment() {
            Ok(rhs) => match lhs {
                Expr::Literal(Literal::Identifier(name)) => Ok(Expr::Assignment(name, Box::new(rhs))),
                _ => {
                    self.current = equals;
                    Err(self.error_here("Illegal assignment target"))
                },
            },
            Err(e) => Err(e),
        }
    }

    /// `expr`.
    fn expr(&mut self) -> (r: Result<Expr, ParseError>)
        requires
            old(self).in_bounds(),
        ensures
            old(self).follows(final(self), r, grammar::expression(old(self).input(), old(self).current as int)),
        decreases old(self).tokens.len() - old(self).current, 5 * height(0) + 9,
    {
        self.assignment()
    }

    /// An expression and the semicolon that ends it.
    fn terminated(&mut self) -> (r: Result<Expr, ParseError>)
        requires
            old(self).in_bounds(),
        ensures
            old(self).follows(final(self), r, grammar::terminated(old(self).input(), old(self).current as int)),
    {
        match self.expr() {
            Ok(e) => {
                let ends = match self.peek_token_type() {
                    Some(TokenType::SemiColon) => true,
                    _ => false,
                };
                if ends {
                    self.consume();
                    Ok(e)
                } else {
                    Err(self.error_here("Missing semicolon"))
                }
            },
            Err(e) => Err(e),
        }
    }

    /// A variable declaration; the parser is on its `var`.
    fn var_declaration(&mut self) -> (r: Result<Declaration, ParseError>)
        requires
            old(self).in_bounds(),
            kind_at(old(self).input(), old(self).current as int) == TokenKind::Var,
        ensures
            old(self).follows(
                final(self),
                r,
                grammar::var_declaration(old(self).input(), old(self).current as int),
            ),
    {
        self.consume();
        let identifier = match self.peek_token_type() {
            Some(TokenType::Identifier { name }) => name.clone(),
            _ => {
                return Err(self.error_here("Malformed variable declaration"));
            },
        };
        self.consume();
        let follows_name: u8 = match self.peek_token_type() {
            Some(TokenType::Equal) => 1,
            Some(TokenType::SemiColon) => 2,
            _ => 0,
        };
        if follows_name == 1 {
            self.consume();
            match self.terminated() {
                Ok(value) => Ok(Declaration::Variable { identifier, value: Some(value) }),
                Err(e) => Err(e),
            }
        } else if follows_name == 2 {
            self.consume();
            Ok(Declaration::Variable { identifier, value: None })
        } else {
            Err(self.error_here("Malformed variable declaration"))
        }
    }

    /// `statement`.
    fn statement(&mut self) -> (r: Result<Statement, ParseError>)
        requires
            old(self).in_bounds(),
        ensures
            old(self).follows(final(self), r, grammar::statement(old(self).input(), old(self).current as int)),
        decreases old(self).tokens.len() - old(self).current, 0nat,
    {
        let leading: u8 = match self.peek_token_type() {
            Some(TokenType::If) => 1,
            Some(TokenType::Print) => 2,
            Some(TokenType::Eof) => 3,
            None => 3,
            Some(TokenType::LeftBrace) => 4,
            Some(_) => 0,
        };
        if leading == 1 {
            self.consume();
            let opens = match self.peek_token_type() {
                Some(TokenType::LeftParen) => true,
                _ => false,
            };
            if !opens {
                return Err(self.error_here("Expected parenthesized expression after if statement"));
            }
            self.consume();
            let condition = match self.expr() {
                Ok(e) => e,
                Err(e) => {
                    return Err(e);
                },
            };
            let closes = match self.peek_token_type() {
                Some(TokenType::RightParen) => true,
                _ => false,
            };
            if !closes {
                return Err(
                    self.error_here(
                        "Reached the end with an if expression not parenthesized correctly",
                    ),
                );
            }
            self.consume();
            let then_branch = match self.statement() {
                Ok(s) => s,
                Err(e) => {
                    return Err(e);
                },
            };
            let has_else = match self.peek_token_type() {
                Some(TokenType::Else) => true,
                _ => false,
            };
            if has_else {
                self.consume();
                match self.statement() {
                    Ok(else_branch) => Ok(
                        Statement::IfElse(condition, Box::new(then_branch), Box::new(Some(else_branch))),
                    ),
                    Err(e) => Err(e),
                }
            } else {
                Ok(Statement::IfElse(condition, Box::new(then_branch), Box::new(None)))
            }
        } else if leading == 2 {
            self.consume();
            match self.terminated() {
                Ok(e) => Ok(Statement::Print(e)),
                Err(e) => Err(e),
            }
        } else if leading == 3 {
            Err(self.error_here("Reached end of input while parsing"))
        } else if leading == 4 {
            self.consume();
            match self.block() {
                Ok(declarations) => {
                    proof {
                        block_view(declarations);
                    }
                    Ok(Statement::Block(declarations))
                },
                Err(e) => Err(e),
            }
        } else {
            match self.terminated() {
                Ok(e) => Ok(Statement::Expr(e)),
                Err(e) => Err(e),
            }
        }
    }

    /// `declaration`.
    fn declaration(&mut self) -> (r: Result<Declaration, ParseError>)
        requires
            old(self).in_bounds(),
        ensures
            old(self).follows(
                final(self),
                r,
                grammar::declaration(old(self).input(), old(self).current as int),
            ),
        decreases old(self).tokens.len() - old(self).current, 1nat,
    {
        let declares = match self.peek_token_type() {
            Some(TokenType::Var) => true,
            _ => false,
        };
        if declares {
            self.var_declaration()
        } else {
            match self.statement() {
                Ok(s) => Ok(Declaration::Statement(s)),
                Err(e) => Err(e),
            }
        }
    }

    /// The declarations of a block, up to the brace that closes it; the
    /// parser is after the brace that opens it.
    fn block(&mut self) -> (r: Result<Vec<Declaration>, ParseError>)
        requires
            old(self).in_bounds(),
        ensures
            final(self).tokens == old(self).tokens,
            final(self).errors == old(self).errors,
            final(self).in_bounds(),
            match grammar::block(old(self).input(), old(self).current as int) {
                Parsed::Done { value, next } => {
                    &&& r matches Ok(v)
                    &&& declaration_views(v@) == value
                    &&& final(self).current == next
                    &&& old(self).current < next
                },
                Parsed::Failed { message, at } => {
                    &&& r matches Err(e)
                    &&& e@ == failure(old(self).input(), message, at)
                    &&& final(self).current == at
                    &&& old(self).current <= at
                },
            },
        decreases old(self).tokens.len() - old(self).current, 2nat,
    {
        let ghost tokens = self.input();
        let ghost start = self.current as int;
        let mut declarations: Vec<Declaration> = Vec::new();
        proof {
            assert(declaration_views(declarations@) =~= Seq::empty());
            let rest = grammar::block(tokens, start);
            if rest is Done {
                assert(Seq::<crate::program::DeclarationView>::empty() + rest->value =~= rest->value);
            }
        }
        loop
            invariant
                self.tokens == old(self).tokens,
                self.errors == old(self).errors,
                self.in_bounds(),
                tokens == self.input(),
                start == old(self).current,
                start <= self.current,
                grammar::block(tokens, start) == match grammar::block(tokens, self.current as int) {
                    Parsed::Done { value, next } => Parsed::Done {
                        value: declaration_views(declarations@) + value,
                        next,
                    },
                    Parsed::Failed { message, at } => Parsed::Failed { message, at },
                },
            decreases self.tokens.len() - self.current,
        {
            let closes = match self.peek_token_type() {
                Some(TokenType::RightBrace) => true,
                _ => false,
            };
            if closes {
                self.consume();
                proof {
                    assert(declaration_views(declarations@) + Seq::empty() =~= declaration_views(
                        declarations@,
                    ));
                }
                return Ok(declarations);
            }
            let ghost here = self.current as int;
            match self.declaration() {
                Ok(d) => {
                    proof {
                        let rest = grammar::block(tokens, self.current as int);
                        assert(declaration_views(declarations@.push(d)) =~= declaration_views(
                            declarations@,
                        ).push(d@));
                        if rest is Done {
                            assert(declaration_views(declarations@) + (seq![d@] + rest->value)
                                =~= declaration_views(declarations@).push(d@) + rest->value);
                        }
                    }
                    declarations.push(d);
                },
                Err(e) => {
                    return Err(e);
                },
            }
        }
    }

    /// Parses a whole program: declarations up to the end-of-input marker.
    ///
    /// After an error the parser records it, steps over the offending token
    /// and tries a declaration again. The program comes back if no error was
    /// found, the first error otherwise; all of them are kept, see
    /// [`Parser::errors`].
    pub fn parse(&mut self) -> (r: Result<Program, ParseError>)
        ensures
            final(self).input() == old(self).input(),
            ({
                let outcome = grammar::program_from(old(self).input(), old(self).position());
                &&& final(self).reported() == old(self).reported() + outcome.errors
                &&& match r {
                    Ok(program) => outcome.errors.len() == 0 && declaration_views(program@)
                        == outcome.declarations,
                    Err(e) => outcome.errors.len() > 0 && e@ == outcome.errors[0],
                }
            }),
    {
        let ghost tokens = self.input();
        let ghost start = self.current as int;
        let ghost before = failures(self.errors@);
        let ghost mut added: Seq<ParseFailure> = Seq::empty();
        let known = self.errors.len();
        if self.current > self.tokens.len() {
            self.current = self.tokens.len();
        }
        let mut declarations: Vec<Declaration> = Vec::new();
        proof {
            let whole = grammar::program_from(tokens, start);
            if start > self.current {
                program_beyond(tokens, start);
                program_beyond(tokens, self.current as int);
            }
            assert(grammar::program_from(tokens, self.current as int) == whole);
            assert(declaration_views(declarations@) =~= Seq::empty());
            assert(Seq::<crate::program::DeclarationView>::empty() + whole.declarations
                =~= whole.declarations);
            assert(Seq::<ParseFailure>::empty() + whole.errors =~= whole.errors);
            assert(before + added =~= before);
        }
        loop
            invariant
                self.tokens == old(self).tokens,
                self.in_bounds(),
                tokens == self.input(),
                known == old(self).errors.len(),
                before == failures(old(self).errors@),
                failures(self.errors@) == before + added,
                self.errors@.len() == known + added.len(),
                before.len() == known,
                start == old(self).current,
                grammar::program_from(tokens, start) == collected(
                    declaration_views(declarations@),
                    added,
                    grammar::program_from(tokens, self.current as int),
                ),
            decreases self.tokens.len() - self.current,
        {
            proof {
                program_step(tokens, self.current as int, declaration_views(declarations@), added);
            }
            let ends = match self.peek_token_type() {
                Some(TokenType::Eof) => true,
                None => true,
                _ => false,
            };
            if ends {
                proof {
                    assert((before + added).skip(known as int) =~= added);
                }
                return self.finish(declarations, known, Ghost(added));
            }
            match self.declaration() {
                Ok(d) => {
                    proof {
                        assert(declaration_views(declarations@.push(d)) =~= declaration_views(
                            declarations@,
                        ).push(d@));
                    }
                    declarations.push(d);
                },
                Err(e) => {
                    proof {
                        assert(failures(self.errors@.push(e)) =~= failures(self.errors@).push(e@));
                        assert((before + added).push(e@) =~= before + added.push(e@));
                        added = added.push(e@);
                    }
                    self.errors.push(e);
                    if self.current < self.tokens.len() {
                        self.current += 1;
                    } else {
                        // the error is on the end of the tokens: nothing is left
                        proof {
                            program_step(
                                tokens,
                                self.current + 1,
                                declaration_views(declarations@),
                                added,
                            );
                            assert((before + added).skip(known as int) =~= added);
                        }
                        return self.finish(declarations, known, Ghost(added));
                    }
                },
            }
        }
    }

    /// The result of a parse that found the errors from index `known` on.
    fn finish(&self, declarations: Vec<Declaration>, known: usize, Ghost(added): Ghost<Seq<ParseFailure>>) -> (r: Result<
        Program,
        ParseError,
    >)
        requires
            known <= self.errors@.len(),
            failures(self.errors@).skip(known as int) == added,
        ensures
            match r {
                Ok(program) => added.len() == 0 && program == declarations,
                Err(e) => added.len() > 0 && e@ == added[0],
            },
    {
        if self.errors.len() > known {
            let first = self.errors[known].clone();
            proof {
                assert(failures(self.errors@).skip(known as int)[0] == self.errors@[known as int]@);
            }
            Err(first)
        } else {
            Ok(declarations)
        }
    }
}

} // verus!

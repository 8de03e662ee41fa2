//! A whole run: source text in, values printed out.
use vstd::prelude::*;
use vstd::string::StringExecFns;
use crate::environment::{Environment, EnvironmentView};
use crate::error::{Error, ErrorView};
use crate::eval::eval_program;
use crate::grammar;
use crate::lexer::{lex, reader, reads_any, reads_as_function, LexError, LexFailure, Lexer};
use crate::parser::Parser;
use crate::program::{declaration_views, BinaryOp, DeclarationView, Program};
use crate::semantics;
use crate::value::{calculator, computes_any, computes_as_function, ExprEval};

verus! {

/// The message of the error for an unterminated string.
pub open spec fn unterminated_string() -> Seq<char> {
    "Unterminated string"@
}

/// The message of the error for a malformed number.
pub open spec fn malformed_number() -> Seq<char> {
    "Malformed number"@
}

/// What the source text `source` is: the program it spells, or the first
/// error that keeps it from being one. `read` gives the values of number
/// literals.
pub open spec fn load(read: spec_fn(Seq<char>) -> Option<u64>, source: Seq<char>) -> Result<
    Seq<DeclarationView>,
    ErrorView,
> {
    let lexed = lex(read, source);
    match lexed.fatal {
        Some(LexFailure::UnterminatedString { .. }) => Err(
            ErrorView::ParseError(unterminated_string()),
        ),
        Some(LexFailure::MalformedNumber { .. }) => Err(ErrorView::ParseError(malformed_number())),
        None => {
            let outcome = grammar::program(lexed.tokens);
            if outcome.errors.len() > 0 {
                Err(ErrorView::ParseError(outcome.errors[0].message))
            } else {
                Ok(outcome.declarations)
            }
        },
    }
}

/// A program and the environment it runs in.
pub struct Lox {
    program: Program,
    environment: Environment,
}

impl Lox {
    /// The program, as a value.
    pub closed spec fn program(&self) -> Seq<DeclarationView> {
        declaration_views(self.program@)
    }

    /// The environment, as a value.
    pub closed spec fn environment(&self) -> EnvironmentView {
        self.environment@
    }

    /// Lexes and parses `input`, and pairs the program with a fresh
    /// environment. `read` gives the value of a number literal from its
    /// text, as a binary64 bit pattern, or `None` where the text is no
    /// number.
    pub fn new_from_input<N: Fn(&str) -> Option<u64>>(input: String, read: &N) -> (r: Result<
        Self,
        Box<Error>,
    >)
        requires
            input@.len() < usize::MAX,
            reads_any(*read),
        ensures
            r matches Ok(lox) ==> lox.environment() == EnvironmentView::fresh(),
            reads_as_function(*read) ==> match load(reader(*read), input@) {
                Ok(declarations) => r matches Ok(lox) && lox.program() == declarations,
                Err(error) => r matches Err(e) && e@ == error,
            },
    {
        let mut lexer = Lexer::from_source(input);
        let tokens = match lexer.tokens(read) {
            Ok(tokens) => tokens,
            Err(LexError::UnterminatedString { .. }) => {
                return Err(Box::new(Error::ParseError(String::from_str("Unterminated string"))));
            },
            Err(LexError::MalformedNumber { .. }) => {
                return Err(Box::new(Error::ParseError(String::from_str("Malformed number"))));
            },
        };
        let mut parser = Parser::from_tokens(tokens);
        match parser.parse() {
            Ok(program) => Ok(Lox { program, environment: Environment::new() }),
            Err(e) => Err(Box::new(Error::ParseError(e.message))),
        }
    }

    /// Runs the program in the environment, with `arith` for the
    /// arithmetic on two numbers. What it prints is kept, see
    /// [`Lox::output`].
    pub fn eval<A: Fn(BinaryOp, u64, u64) -> u64>(&mut self, arith: &A) -> (r: Result<(), Box<Error>>)
        requires
            computes_any(*arith),
        ensures
            r is Ok,
            final(self).program() == old(self).program(),
            computes_as_function(*arith) ==> final(self).environment() == semantics::program(
                calculator(*arith),
                old(self).program(),
                old(self).environment(),
            ).env,
    {
        eval_program(&self.program, &mut self.environment, arith);
        Ok(())
    }

    /// The values printed so far, oldest first.
    pub fn output(&self) -> (printed: &Vec<ExprEval>)
        ensures
            crate::environment::values(printed@) == self.environment().printed,
    {
        self.environment.output()
    }
}

} // verus!

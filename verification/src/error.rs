//! Errors that stop a run, and the text of diagnostics.
use vstd::prelude::*;
use vstd::string::StringExecFns;
use crate::text::{append, decimal, decimal_string};

verus! {

/// A failure that ends a run.
#[derive(Debug)]
pub enum Error {
    /// Evaluation could not go on.
    RuntimeError(String),
    /// The source text is not a program.
    ParseError(String),
}

/// The mathematical value of an [`Error`].
pub enum ErrorView {
    RuntimeError(Seq<char>),
    ParseError(Seq<char>),
}

impl View for Error {
    type V = ErrorView;

    open spec fn view(&self) -> ErrorView {
        match self {
            Error::RuntimeError(msg) => ErrorView::RuntimeError(msg@),
            Error::ParseError(msg) => ErrorView::ParseError(msg@),
        }
    }
}

impl Error {
    /// The message the error carries.
    pub fn message(&self) -> (msg: &String)
        ensures
            msg@ == match self@ {
                ErrorView::RuntimeError(m) => m,
                ErrorView::ParseError(m) => m,
            },
    {
        match self {
            Error::RuntimeError(msg) => msg,
            Error::ParseError(msg) => msg,
        }
    }
}

/// The message of the error raised when the tokens end inside a production.
pub open spec fn end_of_input() -> Seq<char> {
    "Reached end of input while parsing"@
}

/// A parse error with the given message.
pub fn parse_error<T>(msg: &str) -> (e: Box<Error>)
    ensures
        e@ == ErrorView::ParseError(msg@),
{
    Box::new(Error::ParseError(String::from_str(msg)))
}

/// The parse error raised when the tokens end inside a production.
pub fn eof_parse_error<T>() -> (e: Box<Error>)
    ensures
        e@ == ErrorView::ParseError(end_of_input()),
{
    parse_error::<T>("Reached end of input while parsing")
}

/// A runtime error with the given message.
pub fn runtime_error<T>(msg: &str) -> (e: Box<Error>)
    ensures
        e@ == ErrorView::RuntimeError(msg@),
{
    Box::new(Error::RuntimeError(String::from_str(msg)))
}

/// The text of a diagnostic: `[line N] Error LOC: MESSAGE`.
pub open spec fn diagnostic(line: nat, loc: Seq<char>, message: Seq<char>) -> Seq<char> {
    "[line "@ + decimal(line) + "] Error "@ + loc + ": "@ + message
}

/// The text of a parse diagnostic: `Parse error on line N: LEXEME`.
pub open spec fn parse_diagnostic(line: nat, lexeme: Seq<char>) -> Seq<char> {
    "Parse error on line "@ + decimal(line) + ": "@ + lexeme
}

/// Builds the diagnostic line for an error at `line`; the caller writes it out.
pub fn report_error(line: usize, loc: &str, message: &str) -> (text: String)
    ensures
        text@ == diagnostic(line as nat, loc@, message@),
{
    let number = decimal_string(line);
    let mut text = String::from_str("[line ");
    text = append(text, number.as_str());
    text = append(text, "] Error ");
    text = append(text, loc);
    text = append(text, ": ");
    text = append(text, message);
    text
}

/// Builds the diagnostic line for a parse error at `line`, on the token with
/// the given lexeme; the caller writes it out.
pub fn report_parse_error(line: usize, lexeme: &str) -> (text: String)
    ensures
        text@ == parse_diagnostic(line as nat, lexeme@),
{
    let number = decimal_string(line);
    let mut text = String::from_str("Parse error on line ");
    text = append(text, number.as_str());
    text = append(text, ": ");
    text = append(text, lexeme);
    text
}

} // verus!

//! Lexical analysis: from source text to tokens.
//!
//! The lexer walks the characters once, left to right, with one character of
//! lookahead. What it does is laid down by [`lex`], a function from the
//! characters to the tokens, the recorded errors and the fatal condition, if
//! any; [`Lexer::tokens`] computes exactly that.
use vstd::prelude::*;
use vstd::string::StringExecFns;
use crate::error::{diagnostic, report_error};
use crate::scanner::Scanner;
use crate::text::{alphabetic, alphanumeric, ascii_whitespace, collect, numeric, substring, whitespace};

verus! {

/// The tag of a token, with the value of a literal.
#[derive(Clone, Debug, PartialEq)]
#[allow(inconsistent_fields)]
pub enum TokenType {
    LeftParen,
    RightParen,
    LeftBrace,
    RightBrace,
    Comma,
    Dot,
    Minus,
    Plus,
    SemiColon,
    Slash,
    Star,
    Bang,
    BangEqual,
    Equal,
    EqualEqual,
    Greater,
    GreaterEqual,
    Less,
    LessEqual,
    Identifier { name: String },
    String { literal: String },
    /// A number literal, as the bit pattern of its binary64 value.
    Number { literal: u64 },
    And,
    Class,
    Else,
    False,
    Fun,
    For,
    If,
    Nil,
    Or,
    Print,
    Return,
    Super,
    This,
    True,
    Var,
    While,
    Eof,
}

/// The mathematical value of a [`TokenType`].
#[allow(inconsistent_fields)]
pub enum TokenKind {
    LeftParen,
    RightParen,
    LeftBrace,
    RightBrace,
    Comma,
    Dot,
    Minus,
    Plus,
    SemiColon,
    Slash,
    Star,
    Bang,
    BangEqual,
    Equal,
    EqualEqual,
    Greater,
    GreaterEqual,
    Less,
    LessEqual,
    Identifier { name: Seq<char> },
    String { literal: Seq<char> },
    Number { literal: u64 },
    And,
    Class,
    Else,
    False,
    Fun,
    For,
    If,
    Nil,
    Or,
    Print,
    Return,
    Super,
    This,
    True,
    Var,
    While,
    Eof,
}

impl View for TokenType {
    type V = TokenKind;

    open spec fn view(&self) -> TokenKind {
        match self {
            TokenType::LeftParen => TokenKind::LeftParen,
            TokenType::RightParen => TokenKind::RightParen,
            TokenType::LeftBrace => TokenKind::LeftBrace,
            TokenType::RightBrace => TokenKind::RightBrace,
            TokenType::Comma => TokenKind::Comma,
            TokenType::Dot => TokenKind::Dot,
            TokenType::Minus => TokenKind::Minus,
            TokenType::Plus => TokenKind::Plus,
            TokenType::SemiColon => TokenKind::SemiColon,
            TokenType::Slash => TokenKind::Slash,
            TokenType::Star => TokenKind::Star,
            TokenType::Bang => TokenKind::Bang,
            TokenType::BangEqual => TokenKind::BangEqual,
            TokenType::Equal => TokenKind::Equal,
            TokenType::EqualEqual => TokenKind::EqualEqual,
            TokenType::Greater => TokenKind::Greater,
            TokenType::GreaterEqual => TokenKind::GreaterEqual,
            TokenType::Less => TokenKind::Less,
            TokenType::LessEqual => TokenKind::LessEqual,
            TokenType::Identifier { name } => TokenKind::Identifier { name: name@ },
            TokenType::String { literal } => TokenKind::String { literal: literal@ },
            TokenType::Number { literal } => TokenKind::Number { literal: *literal },
            TokenType::And => TokenKind::And,
            TokenType::Class => TokenKind::Class,
            TokenType::Else => TokenKind::Else,
            TokenType::False => TokenKind::False,
            TokenType::Fun => TokenKind::Fun,
            TokenType::For => TokenKind::For,
            TokenType::If => TokenKind::If,
            TokenType::Nil => TokenKind::Nil,
            TokenType::Or => TokenKind::Or,
            TokenType::Print => TokenKind::Print,
            TokenType::Return => TokenKind::Return,
            TokenType::Super => TokenKind::Super,
            TokenType::This => TokenKind::This,
            TokenType::True => TokenKind::True,
            TokenType::Var => TokenKind::Var,
            TokenType::While => TokenKind::While,
            TokenType::Eof => TokenKind::Eof,
        }
    }
}

/// A token: its tag, the line it was scanned on (from 1) and the exact
/// source text it was scanned from.
#[derive(Clone, Debug, PartialEq)]
pub struct Token {
    pub token_type: TokenType,
    pub line: usize,
    pub lexeme: String,
}

/// The mathematical value of a [`Token`].
pub struct TokenView {
    pub kind: TokenKind,
    pub line: nat,
    pub lexeme: Seq<char>,
}

impl View for Token {
    type V = TokenView;

    open spec fn view(&self) -> TokenView {
        TokenView { kind: self.token_type@, line: self.line as nat, lexeme: self.lexeme@ }
    }
}

/// The values of a sequence of tokens.
pub open spec fn token_views(tokens: Seq<Token>) -> Seq<TokenView> {
    tokens.map_values(|t: Token| t@)
}

/// The values of a sequence of strings.
pub open spec fn texts(strings: Seq<String>) -> Seq<Seq<char>> {
    strings.map_values(|s: String| s@)
}

/// A condition that ends the lexing pass.
#[derive(Clone, Debug, PartialEq)]
pub enum LexError {
    /// The source ended inside a string literal; `line` is the last line.
    UnterminatedString { line: usize },
    /// A run of digits and points that is not a number.
    MalformedNumber { line: usize, lexeme: String },
}

/// The mathematical value of a [`LexError`].
pub enum LexFailure {
    UnterminatedString { line: nat },
    MalformedNumber { line: nat, lexeme: Seq<char> },
}

impl View for LexError {
    type V = LexFailure;

    open spec fn view(&self) -> LexFailure {
        match self {
            LexError::UnterminatedString { line } => LexFailure::UnterminatedString {
                line: *line as nat,
            },
            LexError::MalformedNumber { line, lexeme } => LexFailure::MalformedNumber {
                line: *line as nat,
                lexeme: lexeme@,
            },
        }
    }
}

// ---------------------------------------------------------------------------
// The reader of number literals.

/// Whether `read` may be called on every text.
pub open spec fn reads_any<N: Fn(&str) -> Option<u64>>(read: N) -> bool {
    forall|s: &str| call_requires(read, (s,))
}

/// Whether `read` may give `r` for `text`.
pub open spec fn may_read<N: Fn(&str) -> Option<u64>>(read: N, text: Seq<char>, r: Option<u64>) -> bool {
    exists|s: &str| s@ == text && #[trigger] call_ensures(read, (s,), r)
}

/// What `read` gives for `text`.
pub open spec fn reading<N: Fn(&str) -> Option<u64>>(read: N, text: Seq<char>) -> Option<u64> {
    choose|r: Option<u64>| may_read(read, text, r)
}

/// Whether `read` is a function of the text it is given: two calls on the
/// same characters give the same result.
pub open spec fn reads_as_function<N: Fn(&str) -> Option<u64>>(read: N) -> bool {
    forall|s: &str, r: Option<u64>| call_ensures(read, (s,), r) ==> r == reading(read, s@)
}

/// `read` as a function on texts.
pub open spec fn reader<N: Fn(&str) -> Option<u64>>(read: N) -> spec_fn(Seq<char>) -> Option<
    u64,
> {
    |text: Seq<char>| reading(read, text)
}

// ---------------------------------------------------------------------------
// What the lexer computes.

/// The token of a character that is a token by itself.
pub open spec fn punctuation(c: char) -> Option<TokenKind> {
    if c == '(' {
        Some(TokenKind::LeftParen)
    } else if c == ')' {
        Some(TokenKind::RightParen)
    } else if c == '{' {
        Some(TokenKind::LeftBrace)
    } else if c == '}' {
        Some(TokenKind::RightBrace)
    } else if c == ',' {
        Some(TokenKind::Comma)
    } else if c == '.' {
        Some(TokenKind::Dot)
    } else if c == '-' {
        Some(TokenKind::Minus)
    } else if c == '+' {
        Some(TokenKind::Plus)
    } else if c == ';' {
        Some(TokenKind::SemiColon)
    } else if c == '*' {
        Some(TokenKind::Star)
    } else {
        None
    }
}

/// Whether a character starts an operator that `=` may extend.
pub open spec fn is_comparison_start(c: char) -> bool {
    c == '!' || c == '=' || c == '<' || c == '>'
}

/// The operator that starts with `c`, alone or followed by `=`.
pub open spec fn comparison(c: char, extended: bool) -> TokenKind {
    if c == '!' {
        if extended {
            TokenKind::BangEqual
        } else {
            TokenKind::Bang
        }
    } else if c == '=' {
        if extended {
            TokenKind::EqualEqual
        } else {
            TokenKind::Equal
        }
    } else if c == '<' {
        if extended {
            TokenKind::LessEqual
        } else {
            TokenKind::Less
        }
    } else {
        if extended {
            TokenKind::GreaterEqual
        } else {
            TokenKind::Greater
        }
    }
}

/// The keyword that `text` spells, if it spells one exactly.
pub open spec fn keyword(text: Seq<char>) -> Option<TokenKind> {
    if text == "and"@ {
        Some(TokenKind::And)
    } else if text == "class"@ {
        Some(TokenKind::Class)
    } else if text == "else"@ {
        Some(TokenKind::Else)
    } else if text == "false"@ {
        Some(TokenKind::False)
    } else if text == "fun"@ {
        Some(TokenKind::Fun)
    } else if text == "for"@ {
        Some(TokenKind::For)
    } else if text == "if"@ {
        Some(TokenKind::If)
    } else if text == "nil"@ {
        Some(TokenKind::Nil)
    } else if text == "or"@ {
        Some(TokenKind::Or)
    } else if text == "print"@ {
        Some(TokenKind::Print)
    } else if text == "return"@ {
        Some(TokenKind::Return)
    } else if text == "super"@ {
        Some(TokenKind::Super)
    } else if text == "this"@ {
        Some(TokenKind::This)
    } else if text == "true"@ {
        Some(TokenKind::True)
    } else if text == "var"@ {
        Some(TokenKind::Var)
    } else if text == "while"@ {
        Some(TokenKind::While)
    } else {
        None
    }
}

/// Whether a character may follow the first of an identifier.
pub open spec fn continues_identifier(c: char) -> bool {
    c == '_' || alphanumeric(c)
}

/// Whether a character may follow the first of a number.
pub open spec fn continues_number(c: char) -> bool {
    c == '.' || numeric(c)
}

/// The end of the identifier run that goes through `i`: the first index
/// from `i` on whose character may not continue an identifier, or the end.
pub open spec fn identifier_end(src: Seq<char>, i: int) -> int
    decreases src.len() - i,
{
    if 0 <= i < src.len() && continues_identifier(src[i]) {
        identifier_end(src, i + 1)
    } else {
        i
    }
}

/// The end of the number run that goes through `i`: the first index from
/// `i` on whose character may not continue a number, or the end.
pub open spec fn number_end(src: Seq<char>, i: int) -> int
    decreases src.len() - i,
{
    if 0 <= i < src.len() && continues_number(src[i]) {
        number_end(src, i + 1)
    } else {
        i
    }
}

/// The first index from `i` on that holds `stop`, or the end.
pub open spec fn find(src: Seq<char>, i: int, stop: char) -> int
    decreases src.len() - i,
{
    if 0 <= i < src.len() && src[i] != stop {
        find(src, i + 1, stop)
    } else {
        i
    }
}

/// The number of line feeds in `src[from..to]`.
pub open spec fn newlines(src: Seq<char>, from: int, to: int) -> nat
    decreases to - from,
{
    if from >= to {
        0
    } else {
        newlines(src, from, to - 1) + if src[to - 1] == '\n' {
            1nat
        } else {
            0nat
        }
    }
}

/// What one step of the lexer finds at its position.
pub enum Scanned {
    /// A token.
    Token(TokenKind),
    /// Whitespace, a line feed or a comment: nothing to keep.
    Blank,
    /// A character that starts nothing: recorded, and skipped.
    Unknown,
    /// The pass ends here.
    Fatal(LexFailure),
}

/// One step of the lexer: what it found, where the next step starts, and
/// the line counter after it.
pub struct Step {
    pub found: Scanned,
    pub next: int,
    pub line: nat,
}

/// The step the lexer takes at index `i` of `src`, with the line counter at
/// `line`.
pub open spec fn scan(read: spec_fn(Seq<char>) -> Option<u64>, src: Seq<char>, i: int, line: nat) -> Step
    recommends
        0 <= i < src.len(),
{
    let c = src[i];
    let followed = |d: char| i + 1 < src.len() && src[i + 1] == d;
    if punctuation(c) is Some {
        Step { found: Scanned::Token(punctuation(c)->0), next: i + 1, line }
    } else if is_comparison_start(c) {
        if followed('=') {
            Step { found: Scanned::Token(comparison(c, true)), next: i + 2, line }
        } else {
            Step { found: Scanned::Token(comparison(c, false)), next: i + 1, line }
        }
    } else if c == '/' {
        if followed('/') {
            let end = find(src, i, '\n');
            if end < src.len() {
                Step { found: Scanned::Blank, next: end + 1, line: line + 1 }
            } else {
                Step { found: Scanned::Blank, next: end, line }
            }
        } else {
            Step { found: Scanned::Token(TokenKind::Slash), next: i + 1, line }
        }
    } else if c == '\n' {
        Step { found: Scanned::Blank, next: i + 1, line: line + 1 }
    } else if c == '"' {
        let end = find(src, i + 1, '"');
        let last = line + newlines(src, i + 1, end);
        if end < src.len() {
            Step {
                found: Scanned::Token(TokenKind::String { literal: src.subrange(i + 1, end) }),
                next: end + 1,
                line: last,
            }
        } else {
            Step {
                found: Scanned::Fatal(LexFailure::UnterminatedString { line: last }),
                next: end,
                line: last,
            }
        }
    } else if numeric(c) {
        let end = number_end(src, i + 1);
        let text = src.subrange(i, end);
        match read(text) {
            Some(bits) => Step {
                found: Scanned::Token(TokenKind::Number { literal: bits }),
                next: end,
                line,
            },
            None => Step {
                found: Scanned::Fatal(LexFailure::MalformedNumber { line, lexeme: text }),
                next: end,
                line,
            },
        }
    } else if alphabetic(c) {
        let end = identifier_end(src, i + 1);
        let text = src.subrange(i, end);
        let kind = match keyword(text) {
            Some(k) => k,
            None => TokenKind::Identifier { name: text },
        };
        Step { found: Scanned::Token(kind), next: end, line }
    } else if whitespace(c) {
        Step { found: Scanned::Blank, next: i + 1, line }
    } else {
        Step { found: Scanned::Unknown, next: i + 1, line }
    }
}

/// The message recorded for a character that starts nothing.
pub open spec fn unexpected_character(line: nat) -> Seq<char> {
    diagnostic(line, ""@, "Unexpected character"@)
}

/// The outcome of a lexing pass.
pub struct Lexed {
    /// The tokens, in source order. Without a fatal condition the last one
    /// is the end-of-input marker.
    pub tokens: Seq<TokenView>,
    /// The messages recorded for characters that start nothing.
    pub errors: Seq<Seq<char>>,
    /// The condition that ended the pass early, if one did.
    pub fatal: Option<LexFailure>,
}

/// The outcome of lexing `src` from index `i` on, with the line counter at
/// `line`.
pub open spec fn lex_from(read: spec_fn(Seq<char>) -> Option<u64>, src: Seq<char>, i: int, line: nat) -> Lexed
    decreases src.len() - i,
{
    if !(0 <= i < src.len()) {
        Lexed {
            tokens: seq![TokenView { kind: TokenKind::Eof, line, lexeme: Seq::empty() }],
            errors: Seq::empty(),
            fatal: None,
        }
    } else {
        let step = scan(read, src, i, line);
        if !(i < step.next <= src.len()) {
            // never taken: every step moves on, and none past the end
            Lexed { tokens: Seq::empty(), errors: Seq::empty(), fatal: None }
        } else {
            let rest = lex_from(read, src, step.next, step.line);
            match step.found {
                Scanned::Token(kind) => Lexed {
                    tokens: seq![
                        TokenView { kind, line: step.line, lexeme: src.subrange(i, step.next) },
                    ] + rest.tokens,
                    ..rest
                },
                Scanned::Blank => rest,
                Scanned::Unknown => Lexed {
                    errors: seq![unexpected_character(line)] + rest.errors,
                    ..rest
                },
                Scanned::Fatal(failure) => Lexed {
                    tokens: Seq::empty(),
                    errors: Seq::empty(),
                    fatal: Some(failure),
                },
            }
        }
    }
}

/// The outcome of lexing `src`: lines count from 1.
pub open spec fn lex(read: spec_fn(Seq<char>) -> Option<u64>, src: Seq<char>) -> Lexed {
    lex_from(read, src, 0, 1)
}

/// `rest` after the tokens and errors that came before it.
pub open spec fn after(tokens: Seq<TokenView>, errors: Seq<Seq<char>>, rest: Lexed) -> Lexed {
    Lexed { tokens: tokens + rest.tokens, errors: errors + rest.errors, fatal: rest.fatal }
}


// ---------------------------------------------------------------------------
// Facts about the runs.

/// A run ends between its start and the end of the source.
pub proof fn identifier_end_bounds(src: Seq<char>, i: int)
    requires
        0 <= i <= src.len(),
    ensures
        i <= identifier_end(src, i) <= src.len(),
    decreases src.len() - i,
{
    if i < src.len() && continues_identifier(src[i]) {
        identifier_end_bounds(src, i + 1);
    }
}

/// A run ends between its start and the end of the source.
pub proof fn number_end_bounds(src: Seq<char>, i: int)
    requires
        0 <= i <= src.len(),
    ensures
        i <= number_end(src, i) <= src.len(),
    decreases src.len() - i,
{
    if i < src.len() && continues_number(src[i]) {
        number_end_bounds(src, i + 1);
    }
}

/// A search ends between its start and the end of the source, on the
/// character it looks for if it ends before the end.
pub proof fn find_bounds(src: Seq<char>, i: int, stop: char)
    requires
        0 <= i <= src.len(),
    ensures
        i <= find(src, i, stop) <= src.len(),
        find(src, i, stop) < src.len() ==> src[find(src, i, stop)] == stop,
    decreases src.len() - i,
{
    if i < src.len() && src[i] != stop {
        find_bounds(src, i + 1, stop);
    }
}

/// A range holds at most as many line feeds as characters.
pub proof fn newlines_bound(src: Seq<char>, from: int, to: int)
    requires
        from <= to,
    ensures
        newlines(src, from, to) <= to - from,
    decreases to - from,
{
    if from < to {
        newlines_bound(src, from, to - 1);
    }
}

/// Every step of the lexer moves on by at least one character and stays
/// within the source; the line counter grows by at most the characters passed.
pub proof fn scan_advances(read: spec_fn(Seq<char>) -> Option<u64>, src: Seq<char>, i: int, line: nat)
    requires
        0 <= i < src.len(),
    ensures
        i < scan(read, src, i, line).next <= src.len(),
        line <= scan(read, src, i, line).line <= line + (scan(read, src, i, line).next - i),
{
    find_bounds(src, i, '\n');
    find_bounds(src, i + 1, '"');
    newlines_bound(src, i + 1, find(src, i + 1, '"'));
    number_end_bounds(src, i + 1);
    identifier_end_bounds(src, i + 1);
}

/// One step unfolded: lexing from `i` after `tokens` and `errors` is lexing
/// from where the step ends after what the step adds to them.
pub proof fn lex_step(
    read: spec_fn(Seq<char>) -> Option<u64>,
    src: Seq<char>,
    i: int,
    line: nat,
    tokens: Seq<TokenView>,
    errors: Seq<Seq<char>>,
)
    requires
        0 <= i < src.len(),
    ensures
        ({
            let step = scan(read, src, i, line);
            let rest = lex_from(read, src, step.next, step.line);
            after(tokens, errors, lex_from(read, src, i, line)) == match step.found {
                Scanned::Token(kind) => after(
                    tokens.push(
                        TokenView { kind, line: step.line, lexeme: src.subrange(i, step.next) },
                    ),
                    errors,
                    rest,
                ),
                Scanned::Blank => after(tokens, errors, rest),
                Scanned::Unknown => after(tokens, errors.push(unexpected_character(line)), rest),
                Scanned::Fatal(failure) => Lexed { tokens, errors, fatal: Some(failure) },
            }
        }),
{
    scan_advances(read, src, i, line);
    let step = scan(read, src, i, line);
    let rest = lex_from(read, src, step.next, step.line);
    match step.found {
        Scanned::Token(kind) => {
            let t = TokenView { kind, line: step.line, lexeme: src.subrange(i, step.next) };
            assert(tokens + (seq![t] + rest.tokens) =~= tokens.push(t) + rest.tokens);
        },
        Scanned::Blank => {},
        Scanned::Unknown => {
            let m = unexpected_character(line);
            assert(errors + (seq![m] + rest.errors) =~= errors.push(m) + rest.errors);
        },
        Scanned::Fatal(failure) => {
            assert(tokens + Seq::<TokenView>::empty() =~= tokens);
            assert(errors + Seq::<Seq<char>>::empty() =~= errors);
        },
    }
}

/// A pass that is not ended early ends with the end-of-input marker.
pub proof fn lex_ends_with_eof(read: spec_fn(Seq<char>) -> Option<u64>, src: Seq<char>, i: int, line: nat)
    requires
        0 <= i <= src.len(),
        lex_from(read, src, i, line).fatal is None,
    ensures
        lex_from(read, src, i, line).tokens.len() > 0,
        lex_from(read, src, i, line).tokens.last().kind == TokenKind::Eof,
        lex_from(read, src, i, line).tokens.last().lexeme.len() == 0,
    decreases src.len() - i,
{
    if i < src.len() {
        scan_advances(read, src, i, line);
        let step = scan(read, src, i, line);
        if !(step.found is Fatal) {
            lex_ends_with_eof(read, src, step.next, step.line);
        }
    }
}

// ---------------------------------------------------------------------------
// The lexer.

/// What one step found, as the lexer holds it.
enum Found {
    Token(TokenType),
    Blank,
    Unknown,
    Fatal(LexError),
}

impl View for Found {
    type V = Scanned;

    closed spec fn view(&self) -> Scanned {
        match self {
            Found::Token(t) => Scanned::Token(t@),
            Found::Blank => Scanned::Blank,
            Found::Unknown => Scanned::Unknown,
            Found::Fatal(e) => Scanned::Fatal(e@),
        }
    }
}

/// One step, as the lexer holds it.
struct Advance {
    found: Found,
    next: usize,
    line: usize,
}

impl View for Advance {
    type V = Step;

    closed spec fn view(&self) -> Step {
        Step { found: self.found@, next: self.next as int, line: self.line as nat }
    }
}

/// The token of a character that is a token by itself.
fn punctuation_token(c: char) -> (r: Option<TokenType>)
    ensures
        match r {
            Some(t) => punctuation(c) == Some(t@),
            None => punctuation(c) is None,
        },
{
    if c == '(' {
        Some(TokenType::LeftParen)
    } else if c == ')' {
        Some(TokenType::RightParen)
    } else if c == '{' {
        Some(TokenType::LeftBrace)
    } else if c == '}' {
        Some(TokenType::RightBrace)
    } else if c == ',' {
        Some(TokenType::Comma)
    } else if c == '.' {
        Some(TokenType::Dot)
    } else if c == '-' {
        Some(TokenType::Minus)
    } else if c == '+' {
        Some(TokenType::Plus)
    } else if c == ';' {
        Some(TokenType::SemiColon)
    } else if c == '*' {
        Some(TokenType::Star)
    } else {
        None
    }
}

/// The keyword that `identifier` spells, if it spells one.
pub fn try_keyword(identifier: &String) -> (r: Option<TokenType>)
    ensures
        match r {
            Some(t) => keyword(identifier@) == Some(t@),
            None => keyword(identifier@) is None,
        },
{
    if *identifier == String::from_str("and") {
        Some(TokenType::And)
    } else if *identifier == String::from_str("class") {
        Some(TokenType::Class)
    } else if *identifier == String::from_str("else") {
        Some(TokenType::Else)
    } else if *identifier == String::from_str("false") {
        Some(TokenType::False)
    } else if *identifier == String::from_str("fun") {
        Some(TokenType::Fun)
    } else if *identifier == String::from_str("for") {
        Some(TokenType::For)
    } else if *identifier == String::from_str("if") {
        Some(TokenType::If)
    } else if *identifier == String::from_str("nil") {
        Some(TokenType::Nil)
    } else if *identifier == String::from_str("or") {
        Some(TokenType::Or)
    } else if *identifier == String::from_str("print") {
        Some(TokenType::Print)
    } else if *identifier == String::from_str("return") {
        Some(TokenType::Return)
    } else if *identifier == String::from_str("super") {
        Some(TokenType::Super)
    } else if *identifier == String::from_str("this") {
        Some(TokenType::This)
    } else if *identifier == String::from_str("true") {
        Some(TokenType::True)
    } else if *identifier == String::from_str("var") {
        Some(TokenType::Var)
    } else if *identifier == String::from_str("while") {
        Some(TokenType::While)
    } else {
        None
    }
}

/// Scans the identifier or keyword that starts at `i`.
fn identifier_lookahead(chars: &Vec<char>, i: usize, line: usize) -> (step: Advance)
    requires
        i < chars.len(),
        punctuation(chars[i as int]) is None,
        !is_comparison_start(chars[i as int]),
        chars[i as int] != '/' && chars[i as int] != '\n' && chars[i as int] != '"',
        !numeric(chars[i as int]),
        alphabetic(chars[i as int]),
    ensures
        forall|read: spec_fn(Seq<char>) -> Option<u64>|
            step@ == #[trigger] scan(read, chars@, i as int, line as nat),
        i < step.next <= chars.len(),
        step.line == line,
{
    let mut j: usize = i + 1;
    while j < chars.len() && (chars[j] == '_' || chars[j].is_alphanumeric())
        invariant
            i < j <= chars.len(),
            identifier_end(chars@, j as int) == identifier_end(chars@, i + 1),
        decreases chars.len() - j,
    {
        j += 1;
    }
    let text = substring(chars, i, j);
    let token_type = match try_keyword(&text) {
        Some(t) => t,
        None => TokenType::Identifier { name: text },
    };
    Advance { found: Found::Token(token_type), next: j, line }
}

/// Scans the number that starts at `i` and has `read` give its value.
fn number_lookahead<N: Fn(&str) -> Option<u64>>(
    chars: &Vec<char>,
    i: usize,
    line: usize,
    read: &N,
) -> (step: Advance)
    requires
        i < chars.len(),
        punctuation(chars[i as int]) is None,
        !is_comparison_start(chars[i as int]),
        chars[i as int] != '/' && chars[i as int] != '\n' && chars[i as int] != '"',
        numeric(chars[i as int]),
        reads_any(*read),
    ensures
        reads_as_function(*read) ==> step@ == scan(reader(*read), chars@, i as int, line as nat),
        i < step.next <= chars.len(),
        step.line == line,
        step.found is Token || step.found is Fatal,
{
    let mut j: usize = i + 1;
    while j < chars.len() && (chars[j] == '.' || chars[j].is_numeric())
        invariant
            i < j <= chars.len(),
            number_end(chars@, j as int) == number_end(chars@, i + 1),
        decreases chars.len() - j,
    {
        j += 1;
    }
    let lexeme = substring(chars, i, j);
    let reply = read(lexeme.as_str());
    let found = match number_token(reply, line, lexeme) {
        Ok(token_type) => Found::Token(token_type),
        Err(e) => Found::Fatal(e),
    };
    Advance { found, next: j, line }
}

/// The token of the number literal `lexeme` on line `line`, where `reply`
/// is what the reader of numbers gave for it: the number with that value,
/// or the fatal condition where the reader found no number in the text.
pub fn number_token(reply: Option<u64>, line: usize, lexeme: String) -> (r: Result<TokenType, LexError>)
    ensures
        match reply {
            Some(bits) => r matches Ok(t) && t@ == (TokenKind::Number { literal: bits }),
            None => r matches Err(e) && e@ == (LexFailure::MalformedNumber {
                line: line as nat,
                lexeme: lexeme@,
            }),
        },
{
    match reply {
        Some(bits) => Ok(TokenType::Number { literal: bits }),
        None => Err(LexError::MalformedNumber { line, lexeme }),
    }
}

/// Scans the string literal whose opening quote is at `i`.
fn string_lookahead(chars: &Vec<char>, i: usize, line: usize) -> (step: Advance)
    requires
        i < chars.len() < usize::MAX,
        chars[i as int] == '"',
        line <= i + 1,
    ensures
        forall|read: spec_fn(Seq<char>) -> Option<u64>|
            step@ == #[trigger] scan(read, chars@, i as int, line as nat),
        i < step.next <= chars.len(),
        step.line <= step.next + 1,
        step.found is Token || step.found is Fatal,
{
    let mut j: usize = i + 1;
    let mut last: usize = line;
    while j < chars.len() && chars[j] != '"'
        invariant
            i < j <= chars.len() < usize::MAX,
            find(chars@, j as int, '"') == find(chars@, i + 1, '"'),
            last == line + newlines(chars@, i + 1, j as int),
            last <= j,
            line <= i + 1,
        decreases chars.len() - j,
    {
        if chars[j] == '\n' {
            last += 1;
        }
        j += 1;
    }
    if j < chars.len() {
        let literal = substring(chars, i + 1, j);
        Advance { found: Found::Token(TokenType::String { literal }), next: j + 1, line: last }
    } else {
        Advance { found: Found::Fatal(LexError::UnterminatedString { line: last }), next: j, line: last }
    }
}

/// Scans what starts with one of `!`, `=`, `<`, `>` and `/` at `i`: an
/// operator of one or two characters, or a comment up to the end of its line.
fn symbol_lookahead(chars: &Vec<char>, i: usize, line: usize) -> (step: Advance)
    requires
        i < chars.len() < usize::MAX,
        is_comparison_start(chars[i as int]) || chars[i as int] == '/',
        line <= i + 1,
    ensures
        forall|read: spec_fn(Seq<char>) -> Option<u64>|
            step@ == #[trigger] scan(read, chars@, i as int, line as nat),
        i < step.next <= chars.len(),
        step.line <= step.next + 1,
        step.found is Token || step.found is Blank,
{
    let c = chars[i];
    let extended = i + 1 < chars.len() && chars[i + 1] == '=';
    let next: usize = if extended {
        i + 2
    } else {
        i + 1
    };
    if c == '!' {
        let t = if extended {
            TokenType::BangEqual
        } else {
            TokenType::Bang
        };
        Advance { found: Found::Token(t), next, line }
    } else if c == '=' {
        let t = if extended {
            TokenType::EqualEqual
        } else {
            TokenType::Equal
        };
        Advance { found: Found::Token(t), next, line }
    } else if c == '<' {
        let t = if extended {
            TokenType::LessEqual
        } else {
            TokenType::Less
        };
        Advance { found: Found::Token(t), next, line }
    } else if c == '>' {
        let t = if extended {
            TokenType::GreaterEqual
        } else {
            TokenType::Greater
        };
        Advance { found: Found::Token(t), next, line }
    } else if i + 1 < chars.len() && chars[i + 1] == '/' {
        // a comment: up to and with the line feed that ends it
        let mut j: usize = i;
        while j < chars.len() && chars[j] != '\n'
            invariant
                i <= j <= chars.len(),
                find(chars@, j as int, '\n') == find(chars@, i as int, '\n'),
            decreases chars.len() - j,
        {
            j += 1;
        }
        if j < chars.len() {
            Advance { found: Found::Blank, next: j + 1, line: line + 1 }
        } else {
            Advance { found: Found::Blank, next: j, line }
        }
    } else {
        Advance { found: Found::Token(TokenType::Slash), next: i + 1, line }
    }
}

/// Turns source text into tokens.
pub struct Lexer {
    scanner: Scanner,
    errors: Vec<String>,
}

impl Lexer {
    /// The source text.
    pub closed spec fn source(&self) -> Seq<char> {
        self.scanner@
    }

    /// The messages recorded so far, oldest first.
    pub closed spec fn recorded(&self) -> Seq<Seq<char>> {
        texts(self.errors@)
    }

    /// A lexer over `source`, with nothing recorded.
    pub fn from_source(source: String) -> (lexer: Self)
        ensures
            lexer.source() == source@,
            lexer.recorded() == Seq::<Seq<char>>::empty(),
    {
        let lexer = Lexer { scanner: Scanner::from_source(source), errors: Vec::new() };
        assert(texts(lexer.errors@) =~= Seq::<Seq<char>>::empty());
        lexer
    }

    /// The messages recorded so far, oldest first.
    pub fn errors(&self) -> (errors: &Vec<String>)
        ensures
            texts(errors@) == self.recorded(),
    {
        &self.errors
    }

    /// Scans the whole source.
    ///
    /// `read` gives the value of a number literal from its text, as a
    /// binary64 bit pattern, or `None` where the text is no number.
    ///
    /// A character that starts nothing is recorded and skipped. An
    /// unterminated string or a malformed number ends the pass with an error.
    /// Otherwise the tokens come back, the last of them the end-of-input
    /// marker.
    pub fn tokens<N: Fn(&str) -> Option<u64>>(&mut self, read: &N) -> (r: Result<Vec<Token>, LexError>)
        requires
            old(self).source().len() < usize::MAX,
            reads_any(*read),
        ensures
            final(self).source() == old(self).source(),
            reads_as_function(*read) ==> ({
                let lexed = lex(reader(*read), old(self).source());
                &&& final(self).recorded() == old(self).recorded() + lexed.errors
                &&& match r {
                    Ok(tokens) => lexed.fatal is None && token_views(tokens@) == lexed.tokens,
                    Err(e) => lexed.fatal == Some(e@),
                }
            }),
            r matches Ok(tokens) ==> tokens.len() > 0 && tokens@.last()@.kind == TokenKind::Eof,
    {
        let chars = collect(self.scanner.scan());
        let mut tokens: Vec<Token> = Vec::new();
        let mut line: usize = 1;
        let mut i: usize = 0;
        let ghost src = chars@;
        let ghost before = texts(self.errors@);
        let ghost mut added: Seq<Seq<char>> = Seq::empty();
        proof {
            assert(before + added =~= before);
            assert(token_views(tokens@) =~= Seq::<TokenView>::empty());
            let lexed = lex(reader(*read), src);
            assert(after(Seq::empty(), Seq::empty(), lexed) == lexed) by {
                assert(Seq::<TokenView>::empty() + lexed.tokens =~= lexed.tokens);
                assert(Seq::<Seq<char>>::empty() + lexed.errors =~= lexed.errors);
            }
        }
        while i < chars.len()
            invariant
                i <= chars.len() < usize::MAX,
                1 <= line <= i + 1,
                chars@ == src,
                src == self.scanner@,
                self.scanner == old(self).scanner,
                reads_any(*read),
                texts(self.errors@) == before + added,
                before == texts(old(self).errors@),
                reads_as_function(*read) ==> after(
                    token_views(tokens@),
                    added,
                    lex_from(reader(*read), src, i as int, line as nat),
                ) == lex(reader(*read), src),
            decreases chars.len() - i,
        {
            let c = chars[i];
            let step = match punctuation_token(c) {
                Some(t) => Advance { found: Found::Token(t), next: i + 1, line },
                None => {
                    if c == '!' || c == '=' || c == '<' || c == '>' || c == '/' {
                        symbol_lookahead(&chars, i, line)
                    } else if c == '\n' {
                        Advance { found: Found::Blank, next: i + 1, line: line + 1 }
                    } else if c == '"' {
                        string_lookahead(&chars, i, line)
                    } else if c.is_numeric() {
                        number_lookahead(&chars, i, line, read)
                    } else if c.is_alphabetic() {
                        identifier_lookahead(&chars, i, line)
                    } else if ascii_whitespace(c) {
                        Advance { found: Found::Blank, next: i + 1, line }
                    } else {
                        Advance { found: Found::Unknown, next: i + 1, line }
                    }
                },
            };
            proof {
                let f = reader(*read);
                assert(reads_as_function(*read) ==> step@ == scan(f, src, i as int, line as nat));
                lex_step(f, src, i as int, line as nat, token_views(tokens@), added);
            }
            match step.found {
                Found::Token(token_type) => {
                    let token = Token { token_type, line: step.line, lexeme: substring(&chars, i, step.next) };
                    proof {
                        assert(token_views(tokens@.push(token)) =~= token_views(tokens@).push(token@));
                    }
                    tokens.push(token);
                },
                Found::Blank => {},
                Found::Unknown => {
                    let message = report_error(line, "", "Unexpected character");
                    proof {
                        assert(texts(self.errors@.push(message)) =~= texts(self.errors@).push(message@));
                        assert((before + added).push(message@) =~= before + added.push(message@));
                        added = added.push(message@);
                    }
                    self.errors.push(message);
                },
                Found::Fatal(e) => {
                    return Err(e);
                },
            }
            i = step.next;
            line = step.line;
        }
        let end = Token { token_type: TokenType::Eof, line, lexeme: String::new() };
        proof {
            assert(token_views(tokens@.push(end)) =~= token_views(tokens@).push(end@));
            let rest = lex_from(reader(*read), src, i as int, line as nat);
            assert(token_views(tokens@).push(end@) =~= token_views(tokens@) + rest.tokens);
            assert(added + rest.errors =~= added);
        }
        tokens.push(end);
        Ok(tokens)
    }
}

} // verus!

//! The scanner of the stack machine: punctuation and operators only.
use vstd::prelude::*;
use crate::bytecode::token::Token;
use crate::text::{collect, white_space};

verus! {

/// Owns the source text.
pub struct Scanner {
    line: i32,
    source: String,
}

impl View for Scanner {
    type V = Seq<char>;

    closed spec fn view(&self) -> Seq<char> {
        self.source@
    }
}

/// A walk over the characters of a source text, one token at a time.
pub struct Lexemes {
    current: usize,
    characters: Vec<char>,
}

/// The mathematical value of a [`Lexemes`].
pub struct LexemesView {
    pub current: nat,
    pub characters: Seq<char>,
}

impl View for Lexemes {
    type V = LexemesView;

    closed spec fn view(&self) -> LexemesView {
        LexemesView {
            current: if self.current <= self.characters.len() {
                self.current as nat
            } else {
                self.characters@.len()
            },
            characters: self.characters@,
        }
    }
}

/// The first index from `i` on whose character is no white space, or the
/// end.
pub open spec fn skip_white_space(characters: Seq<char>, i: int) -> int
    decreases characters.len() - i,
{
    if 0 <= i < characters.len() && white_space(characters[i]) {
        skip_white_space(characters, i + 1)
    } else {
        i
    }
}

/// The token that starts with `first`, followed by `second` if there is a
/// second character, and the number of characters it takes; `None` where
/// `first` starts no token.
pub open spec fn token_of(first: char, second: Option<char>) -> Option<(Token, nat)> {
    let extended = second == Some('=');
    if first == '(' {
        Some((Token::LeftParen, 1nat))
    } else if first == ')' {
        Some((Token::RightParen, 1nat))
    } else if first == '{' {
        Some((Token::LeftBrace, 1nat))
    } else if first == '}' {
        Some((Token::RightBrace, 1nat))
    } else if first == ';' {
        Some((Token::Semicolon, 1nat))
    } else if first == ',' {
        Some((Token::Comma, 1nat))
    } else if first == '.' {
        Some((Token::Dot, 1nat))
    } else if first == '-' {
        Some((Token::Minus, 1nat))
    } else if first == '+' {
        Some((Token::Plus, 1nat))
    } else if first == '/' {
        Some((Token::Slash, 1nat))
    } else if first == '*' {
        Some((Token::Star, 1nat))
    } else if first == '!' {
        if extended {
            Some((Token::BangEqual, 2nat))
        } else {
            Some((Token::Bang, 1nat))
        }
    } else if first == '=' {
        if extended {
            Some((Token::EqualEqual, 2nat))
        } else {
            Some((Token::Equal, 1nat))
        }
    } else if first == '<' {
        if extended {
            Some((Token::LessEqual, 2nat))
        } else {
            Some((Token::Less, 1nat))
        }
    } else if first == '>' {
        if extended {
            Some((Token::GreaterEqual, 2nat))
        } else {
            Some((Token::Greater, 1nat))
        }
    } else {
        None
    }
}

impl LexemesView {
    /// Where the next token starts: after the white space from `current`
    /// on.
    pub open spec fn start(self) -> int {
        skip_white_space(self.characters, self.current as int)
    }

    /// Whether at most one character is left from the start of the next
    /// token on; the walk is then at its end.
    pub open spec fn at_end(self) -> bool {
        self.start() + 1 >= self.characters.len()
    }

    /// The next token and the number of characters it takes: the
    /// end-of-input marker, which takes none, at the end; `None` where no
    /// token starts.
    pub open spec fn next(self) -> Option<(Token, nat)> {
        if self.at_end() {
            Some((Token::EOF, 0nat))
        } else {
            token_of(
                self.characters[self.start()],
                if self.start() + 1 < self.characters.len() {
                    Some(self.characters[self.start() + 1])
                } else {
                    None
                },
            )
        }
    }
}

impl Scanner {
    /// A scanner over `source`.
    pub fn new(source: String) -> (scanner: Self)
        ensures
            scanner@ == source@,
    {
        Scanner { line: 0, source }
    }

    /// A walk over the characters of the source, from the first.
    pub fn lexemes(&self) -> (lexemes: Lexemes)
        ensures
            lexemes@ == (LexemesView { current: 0, characters: self@ }),
    {
        broadcast use vstd::string::group_string_axioms;

        Lexemes { current: 0, characters: collect(self.source.as_str().chars()) }
    }
}

impl Lexemes {
    /// The next token. White space before it is skipped. With at most one
    /// character left the walk is at its end and gives the end-of-input
    /// marker, again and again. Where no token starts the walk stays before
    /// the character and gives `None`.
    pub fn next(&mut self) -> (token: Option<Token>)
        ensures
            final(self)@.characters == old(self)@.characters,
            match old(self)@.next() {
                Some((expected, taken)) => token == Some(expected) && final(self)@.current == old(
                    self,
                )@.start() + taken,
                None => token is None && final(self)@.current == old(self)@.start(),
            },
    {
        let ghost characters = self.characters@;
        let ghost from = self@.current as int;
        if self.current > self.characters.len() {
            self.current = self.characters.len();
        }
        while self.current < self.characters.len() && self.characters[self.current].is_whitespace()
            invariant
                self.current <= self.characters.len(),
                self.characters@ == characters,
                skip_white_space(characters, self.current as int) == skip_white_space(
                    characters,
                    from,
                ),
            decreases self.characters.len() - self.current,
        {
            self.current += 1;
        }
        if self.characters.len() - self.current <= 1 {
            return Some(Token::EOF);
        }
        let first = self.characters[self.current];
        let extended = self.characters[self.current + 1] == '=';
        let found: Option<(Token, usize)> = if first == '(' {
            Some((Token::LeftParen, 1))
        } else if first == ')' {
            Some((Token::RightParen, 1))
        } else if first == '{' {
            Some((Token::LeftBrace, 1))
        } else if first == '}' {
            Some((Token::RightBrace, 1))
        } else if first == ';' {
            Some((Token::Semicolon, 1))
        } else if first == ',' {
            Some((Token::Comma, 1))
        } else if first == '.' {
            Some((Token::Dot, 1))
        } else if first == '-' {
            Some((Token::Minus, 1))
        } else if first == '+' {
            Some((Token::Plus, 1))
        } else if first == '/' {
            Some((Token::Slash, 1))
        } else if first == '*' {
            Some((Token::Star, 1))
        } else if first == '!' {
            if extended {
                Some((Token::BangEqual, 2))
            } else {
                Some((Token::Bang, 1))
            }
        } else if first == '=' {
            if extended {
                Some((Token::EqualEqual, 2))
            } else {
                Some((Token::Equal, 1))
            }
        } else if first == '<' {
            if extended {
                Some((Token::LessEqual, 2))
            } else {
                Some((Token::Less, 1))
            }
        } else if first == '>' {
            if extended {
                Some((Token::GreaterEqual, 2))
            } else {
                Some((Token::Greater, 1))
            }
        } else {
            None
        };
        match found {
            Some((token, taken)) => {
                self.current += taken;
                Some(token)
            },
            None => None,
        }
    }
}

} // verus!

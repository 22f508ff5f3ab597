//! The argument list of an embedding request: the name of the crate that the
//! generated code imports from, the encoding, and the pattern.
//!
//! The grammar is `crate-name , sparse , "pattern"`: an identifier, a
//! comma, a boolean literal, a comma and a string literal. It is read from
//! tokens, not from text: telling an identifier from a keyword and
//! unescaping a string literal belong to whoever lexes.
//!
//! [`Input::parse`] reads the five tokens from the front of a list and
//! leaves what follows to its caller. [`parse_macro_input`] reads a whole
//! list: nothing may follow the pattern.

use vstd::prelude::*;

verus! {

/// One token of an argument list.
#[derive(Debug, Clone, PartialEq, Eq)]
pub enum Token {
    /// An identifier that is not a keyword.
    Ident(String),
    /// The punctuation `,`.
    Comma,
    /// `true` or `false`.
    Bool(bool),
    /// A string literal, by its value.
    Str(String),
    /// Anything else.
    Other,
}

/// The kind of token that a position of the grammar asks for.
#[derive(Debug, Clone, Copy, PartialEq, Eq, Structural)]
pub enum Expected {
    Ident,
    Comma,
    Bool,
    Str,
    /// The end of the argument list.
    End,
}

/// The first position at which an argument list departs from the grammar.
#[derive(Debug, Clone, Copy, PartialEq, Eq, Structural)]
pub struct ParseError {
    /// The index of the offending token; the number of tokens where the list
    /// ends too early.
    pub position: usize,
    /// What the grammar asks for there.
    pub expected: Expected,
    /// Whether the list ends before the position.
    pub at_end: bool,
}

/// A parsed argument list.
#[derive(Debug, Clone, PartialEq, Eq)]
pub struct Input {
    /// The crate that re-exports the engine to the generated code.
    pub krate: String,
    /// Whether the automaton is embedded in its sparse encoding.
    pub sparse: bool,
    /// The pattern.
    pub input: String,
}

/// An argument list as plain values.
pub struct InputView {
    pub krate: Seq<char>,
    pub sparse: bool,
    pub input: Seq<char>,
}

impl View for Input {
    type V = InputView;

    open spec fn view(&self) -> InputView {
        InputView { krate: self.krate@, sparse: self.sparse, input: self.input@ }
    }
}

/// The number of tokens of an argument list.
pub const ARGUMENTS: usize = 5;

/// What is wrong at a position where the grammar asks for `expected`. A list
/// that ends where an identifier or a literal is due is told so; a missing
/// comma is reported alike wherever it is missing.
pub open spec fn complaint(expected: Expected, at_end: bool) -> Seq<char> {
    match expected {
        Expected::Ident => if at_end {
            "unexpected end of input, expected identifier"@
        } else {
            "expected identifier"@
        },
        Expected::Comma => "expected `,`"@,
        Expected::Bool => if at_end {
            "unexpected end of input, expected boolean literal"@
        } else {
            "expected boolean literal"@
        },
        Expected::Str => if at_end {
            "unexpected end of input, expected string literal"@
        } else {
            "expected string literal"@
        },
        Expected::End => "unexpected token"@,
    }
}

impl ParseError {
    /// Says what is wrong at the position of the error.
    pub fn message(&self) -> (r: &'static str)
        ensures
            r@ == complaint(self.expected, self.at_end),
    {
        match self.expected {
            Expected::Ident => if self.at_end {
                "unexpected end of input, expected identifier"
            } else {
                "expected identifier"
            },
            Expected::Comma => "expected `,`",
            Expected::Bool => if self.at_end {
                "unexpected end of input, expected boolean literal"
            } else {
                "expected boolean literal"
            },
            Expected::Str => if self.at_end {
                "unexpected end of input, expected string literal"
            } else {
                "expected string literal"
            },
            Expected::End => "unexpected token",
        }
    }
}

/// Whether `tokens` has a token at `position` and it is of the kind `expected`.
pub open spec fn holds(tokens: Seq<Token>, position: int, expected: Expected) -> bool {
    0 <= position < tokens.len() && match expected {
        Expected::Ident => tokens[position] is Ident,
        Expected::Comma => tokens[position] is Comma,
        Expected::Bool => tokens[position] is Bool,
        Expected::Str => tokens[position] is Str,
        Expected::End => false,
    }
}

/// The error for a list that does not hold `expected` at `position`.
pub open spec fn mismatch(tokens: Seq<Token>, position: usize, expected: Expected)
    -> ParseError {
    ParseError { position, expected, at_end: position >= tokens.len() }
}

/// The grammar: what the front of a list parses to, or where it first goes
/// wrong. What follows the fifth token is not looked at.
pub open spec fn parse_spec(tokens: Seq<Token>) -> Result<InputView, ParseError> {
    if !holds(tokens, 0, Expected::Ident) {
        Err(mismatch(tokens, 0, Expected::Ident))
    } else if !holds(tokens, 1, Expected::Comma) {
        Err(mismatch(tokens, 1, Expected::Comma))
    } else if !holds(tokens, 2, Expected::Bool) {
        Err(mismatch(tokens, 2, Expected::Bool))
    } else if !holds(tokens, 3, Expected::Comma) {
        Err(mismatch(tokens, 3, Expected::Comma))
    } else if !holds(tokens, 4, Expected::Str) {
        Err(mismatch(tokens, 4, Expected::Str))
    } else {
        Ok(
            InputView {
                krate: tokens[0]->Ident_0@,
                sparse: tokens[2]->Bool_0,
                input: tokens[4]->Str_0@,
            },
        )
    }
}

/// What a whole list parses to: what its front parses to, unless a token
/// follows the pattern.
pub open spec fn whole_spec(tokens: Seq<Token>) -> Result<InputView, ParseError> {
    match parse_spec(tokens) {
        Ok(input) => if tokens.len() > ARGUMENTS {
            Err(ParseError { position: ARGUMENTS, expected: Expected::End, at_end: false })
        } else {
            Ok(input)
        },
        Err(error) => Err(error),
    }
}

/// The result of parsing as plain values.
pub open spec fn parsed(r: Result<Input, ParseError>) -> Result<InputView, ParseError> {
    match r {
        Ok(input) => Ok(input@),
        Err(error) => Err(error),
    }
}

/// The front of a list parses exactly where its first five tokens are an
/// identifier, a comma, a boolean literal, a comma and a string literal,
/// whatever follows them.
pub proof fn lemma_parse_reads_five_tokens(tokens: Seq<Token>)
    ensures
        parse_spec(tokens) is Ok <==> {
            &&& holds(tokens, 0, Expected::Ident)
            &&& holds(tokens, 1, Expected::Comma)
            &&& holds(tokens, 2, Expected::Bool)
            &&& holds(tokens, 3, Expected::Comma)
            &&& holds(tokens, 4, Expected::Str)
        },
        tokens.len() >= ARGUMENTS ==> parse_spec(tokens) == parse_spec(
            tokens.take(ARGUMENTS as int),
        ),
{
}

/// The identifier at `position`, if one is there.
fn ident_at(tokens: &[Token], position: usize) -> (r: Option<String>)
    ensures
        r.is_some() == holds(tokens@, position as int, Expected::Ident),
        r matches Some(name) ==> name@ == tokens@[position as int]->Ident_0@,
{
    if position < tokens.len() {
        match &tokens[position] {
            Token::Ident(name) => Some(name.clone()),
            _ => None,
        }
    } else {
        None
    }
}

/// Whether a comma is at `position`.
fn comma_at(tokens: &[Token], position: usize) -> (r: bool)
    ensures
        r == holds(tokens@, position as int, Expected::Comma),
{
    if position < tokens.len() {
        match &tokens[position] {
            Token::Comma => true,
            _ => false,
        }
    } else {
        false
    }
}

/// The boolean literal at `position`, if one is there.
fn bool_at(tokens: &[Token], position: usize) -> (r: Option<bool>)
    ensures
        r.is_some() == holds(tokens@, position as int, Expected::Bool),
        r matches Some(value) ==> value == tokens@[position as int]->Bool_0,
{
    if position < tokens.len() {
        match &tokens[position] {
            Token::Bool(value) => Some(*value),
            _ => None,
        }
    } else {
        None
    }
}

/// The string literal at `position`, if one is there.
fn str_at(tokens: &[Token], position: usize) -> (r: Option<String>)
    ensures
        r.is_some() == holds(tokens@, position as int, Expected::Str),
        r matches Some(value) ==> value@ == tokens@[position as int]->Str_0@,
{
    if position < tokens.len() {
        match &tokens[position] {
            Token::Str(value) => Some(value.clone()),
            _ => None,
        }
    } else {
        None
    }
}

/// The error for a list that does not hold `expected` at `position`.
fn mismatch_at(tokens: &[Token], position: usize, expected: Expected) -> (r: ParseError)
    ensures
        r == mismatch(tokens@, position, expected),
{
    ParseError { position, expected, at_end: position >= tokens.len() }
}

impl Input {
    /// Parses the front of an argument list: its first five tokens. It fails
    /// at the first of them that the grammar does not allow. Tokens that
    /// follow the pattern are left to the caller.
    pub fn parse(tokens: &[Token]) -> (r: Result<Input, ParseError>)
        ensures
            parsed(r) == parse_spec(tokens@),
    {
        let krate = match ident_at(tokens, 0) {
            Some(name) => name,
            None => {
                return Err(mismatch_at(tokens, 0, Expected::Ident));
            },
        };
        if !comma_at(tokens, 1) {
            return Err(mismatch_at(tokens, 1, Expected::Comma));
        }
        let sparse = match bool_at(tokens, 2) {
            Some(value) => value,
            None => {
                return Err(mismatch_at(tokens, 2, Expected::Bool));
            },
        };
        if !comma_at(tokens, 3) {
            return Err(mismatch_at(tokens, 3, Expected::Comma));
        }
        let input = match str_at(tokens, 4) {
            Some(value) => value,
            None => {
                return Err(mismatch_at(tokens, 4, Expected::Str));
            },
        };
        Ok(Input { krate, sparse, input })
    }
}

/// Parses a whole argument list: its front as [`Input::parse`] does, and
/// then nothing may be left.
pub fn parse_macro_input(tokens: &[Token]) -> (r: Result<Input, ParseError>)
    ensures
        parsed(r) == whole_spec(tokens@),
{
    let input = match Input::parse(tokens) {
        Ok(input) => input,
        Err(error) => {
            return Err(error);
        },
    };
    if tokens.len() > ARGUMENTS {
        return Err(ParseError { position: ARGUMENTS, expected: Expected::End, at_end: false });
    }
    Ok(input)
}

} // verus!

//! The ways in which a macro invocation can fail.

use vstd::prelude::*;

verus! {

/// Why a macro invocation produced no tokens.
///
/// Every failure is final: the caller is expected to abort the expansion and
/// show [`MacroError::message`].
#[derive(Clone, Copy, Debug, PartialEq, Eq, Structural)]
pub enum MacroError {
    /// The invocation holds fewer than three token trees: a literal, a
    /// separator and a second literal.
    MissingArguments,
    /// The first token tree is not a literal.
    FirstArgumentNotLiteral,
    /// The third token tree is not a literal.
    SecondArgumentNotLiteral,
    /// A literal argument holds fewer than two double quotes, so there is no
    /// text between quotes to take.
    UnquotedLiteral,
    /// The JSON file was needed and could not be read.
    UnreadableFile,
    /// The bytes of the file are not one JSON document.
    InvalidJson,
    /// The JSON pointer addresses nothing in the document.
    PointerNotFound,
    /// A type was asked for and the addressed value is not a JSON string.
    NotAString,
    /// The addressed value could not be written as JSON text.
    Unserializable,
    /// The text to emit does not lex as Rust tokens.
    InvalidToken,
}

impl MacroError {
    /// The text of [`MacroError::message`].
    pub open spec fn message_text(self) -> Seq<char> {
        match self {
            MacroError::MissingArguments => "json_token! expected 2 arguments"@,
            MacroError::FirstArgumentNotLiteral =>
                "macro only accepts a string literal as first argument"@,
            MacroError::SecondArgumentNotLiteral =>
                "macro only accepts a string literal as second argument"@,
            MacroError::UnquotedLiteral => "How does a literal not have a \"?"@,
            MacroError::UnreadableFile =>
                "failed to read JSON file specified by json_token! macro"@,
            MacroError::InvalidJson => "json_token! file is not valid JSON"@,
            MacroError::PointerNotFound =>
                "json_token! macro did not find a value for this JSON pointer"@,
            MacroError::NotAString =>
                "json_token! macro expected to find a string at this JSON pointer"@,
            MacroError::Unserializable => "JSON value could not be written as JSON text"@,
            MacroError::InvalidToken => "JSON schema type isn't a valid Rust token"@,
        }
    }

    /// The sentence to abort the expansion with.
    pub fn message(&self) -> (text: &'static str)
        ensures
            text@ == self.message_text(),
    {
        match self {
            MacroError::MissingArguments => "json_token! expected 2 arguments",
            MacroError::FirstArgumentNotLiteral =>
                "macro only accepts a string literal as first argument",
            MacroError::SecondArgumentNotLiteral =>
                "macro only accepts a string literal as second argument",
            MacroError::UnquotedLiteral => "How does a literal not have a \"?",
            MacroError::UnreadableFile => "failed to read JSON file specified by json_token! macro",
            MacroError::InvalidJson => "json_token! file is not valid JSON",
            MacroError::PointerNotFound =>
                "json_token! macro did not find a value for this JSON pointer",
            MacroError::NotAString =>
                "json_token! macro expected to find a string at this JSON pointer",
            MacroError::Unserializable => "JSON value could not be written as JSON text",
            MacroError::InvalidToken => "JSON schema type isn't a valid Rust token",
        }
    }
}

} // verus!

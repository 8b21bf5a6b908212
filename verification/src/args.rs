//! The two arguments of a macro invocation.

use vstd::prelude::*;
use crate::error::MacroError;
use crate::literal::{extract_string_lit, quoted_text};
use crate::tokens::{literal_texts, stream_literals};

verus! {

/// The arguments of one invocation: which file, and where in it.
#[derive(Debug)]
pub struct MacroArgs {
    /// Path of the JSON file, as written between the quotes of the first
    /// literal.
    pub file_path: String,
    /// JSON pointer into the document, as written between the quotes of the
    /// second literal.
    pub pointer: String,
}

/// [`MacroArgs`] as two sequences of characters.
pub struct MacroArgsView {
    /// The characters of [`MacroArgs::file_path`].
    pub file_path: Seq<char>,
    /// The characters of [`MacroArgs::pointer`].
    pub pointer: Seq<char>,
}

impl View for MacroArgs {
    type V = MacroArgsView;

    open spec fn view(&self) -> MacroArgsView {
        MacroArgsView { file_path: self.file_path@, pointer: self.pointer@ }
    }
}

/// The arguments that an invocation with the top-level token trees `trees`
/// holds: `trees[i]` is the source text of the tree where it is a literal.
///
/// The first and the third tree are the arguments. The second one separates
/// them and is not looked at, nor is anything behind the third.
pub open spec fn args_of(trees: Seq<Option<Seq<char>>>) -> Result<MacroArgsView, MacroError> {
    if trees.len() < 3 {
        Err(MacroError::MissingArguments)
    } else {
        match (trees[0], trees[2]) {
            (None, _) => Err(MacroError::FirstArgumentNotLiteral),
            (Some(_), None) => Err(MacroError::SecondArgumentNotLiteral),
            (Some(first), Some(second)) => match (quoted_text(first), quoted_text(second)) {
                (Some(file_path), Some(pointer)) => Ok(MacroArgsView { file_path, pointer }),
                _ => Err(MacroError::UnquotedLiteral),
            },
        }
    }
}

/// Reads the arguments from the top-level token trees of an invocation, each
/// given as `Some` of its source text where it is a literal.
pub fn args_from_literals(trees: &Vec<Option<String>>) -> (r: Result<MacroArgs, MacroError>)
    ensures
        match r {
            Ok(args) => args_of(trees.deep_view()) == Ok::<MacroArgsView, MacroError>(args@),
            Err(e) => args_of(trees.deep_view()) == Err::<MacroArgsView, MacroError>(e),
        },
{
    if trees.len() < 3 {
        return Err(MacroError::MissingArguments);
    }
    let first = match &trees[0] {
        Some(text) => text,
        None => {
            return Err(MacroError::FirstArgumentNotLiteral);
        },
    };
    let second = match &trees[2] {
        Some(text) => text,
        None => {
            return Err(MacroError::SecondArgumentNotLiteral);
        },
    };
    match (extract_string_lit(first.as_str()), extract_string_lit(second.as_str())) {
        (Some(file_path), Some(pointer)) => Ok(
            MacroArgs { file_path: file_path.to_owned(), pointer: pointer.to_owned() },
        ),
        _ => Err(MacroError::UnquotedLiteral),
    }
}

/// Reads the arguments of an invocation from its tokens.
pub fn parse_args(input: proc_macro2::TokenStream) -> (r: Result<MacroArgs, MacroError>)
    ensures
        match r {
            Ok(args) => args_of(stream_literals(input)) == Ok::<MacroArgsView, MacroError>(args@),
            Err(e) => args_of(stream_literals(input)) == Err::<MacroArgsView, MacroError>(e),
        },
{
    let trees = literal_texts(input);
    args_from_literals(&trees)
}

} // verus!

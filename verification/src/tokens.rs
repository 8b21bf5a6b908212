//! Token streams of `proc_macro2`, as far as the library reads and makes them.

use std::str::FromStr;
use vstd::prelude::*;

verus! {

/// `proc_macro2::TokenStream`, opaque to the verifier.
#[verifier::external_type_specification]
#[verifier::external_body]
pub struct ExTokenStream(proc_macro2::TokenStream);

/// `proc_macro2::LexError`, opaque to the verifier.
#[verifier::external_type_specification]
#[verifier::external_body]
pub struct ExLexError(proc_macro2::LexError);

/// What a token stream holds, one entry for each of its top-level token trees
/// in order: for a literal the source text that `proc_macro2::Literal` prints,
/// `None` for a group, an identifier or a punctuation character.
pub uninterp spec fn stream_literals(stream: proc_macro2::TokenStream) -> Seq<Option<Seq<char>>>;

/// Walks a stream with `proc_macro2::TokenStream::into_iter` and hands out its
/// top-level token trees in order, each literal as the text that its `Display`
/// impl prints and every other tree as `None`.
///
/// Trusted: the result is what [`stream_literals`] names for this stream.
#[verifier::external_body]
pub(crate) fn literal_texts(stream: proc_macro2::TokenStream) -> (trees: Vec<Option<String>>)
    ensures
        trees.deep_view() == stream_literals(stream),
{
    stream.into_iter().map(|tree| match tree {
        proc_macro2::TokenTree::Literal(literal) => Some(literal.to_string()),
        proc_macro2::TokenTree::Group(_) => None,
        proc_macro2::TokenTree::Ident(_) => None,
        proc_macro2::TokenTree::Punct(_) => None,
    }).collect()
}

/// Lexes Rust source text with `proc_macro2::TokenStream::from_str`.
///
/// Trusted, and nothing is claimed of the outcome: inside a procedural macro
/// the compiler's lexer has the last word, outside of one `proc_macro2`'s own,
/// so the same text need not give the same answer everywhere. Either way
/// `proc_macro2` hands back a `LexError` for text that is rejected.
#[verifier::external_body]
pub(crate) fn lex(text: &str) -> (tokens: Result<proc_macro2::TokenStream, proc_macro2::LexError>) {
    proc_macro2::TokenStream::from_str(text)
}

} // verus!

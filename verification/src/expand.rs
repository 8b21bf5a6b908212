//! From the arguments of an invocation to the tokens that replace it.
//!
//! The library reads no file. An invocation whose document is not cached yet
//! needs the bytes of its file: the caller asks [`JsonCache::contains`], reads
//! the file where the answer is no, and hands over what it got. For a cached
//! document the bytes are not looked at.

use vstd::pervasive::unreached;
use vstd::prelude::*;
use crate::args::{MacroArgs, MacroArgsView};
use crate::cache::JsonCache;
use crate::error::MacroError;
use crate::json::{
    json_at,
    json_of,
    json_text,
    parse_json,
    parsed_json,
    value_at,
    value_copy,
    value_string,
    value_text,
    Json,
};
use crate::tokens::lex;

verus! {

/// What the caller read from the file of an invocation: its bytes, or `None`
/// where the file could not be read (or was not needed).
pub open spec fn file_bytes(file: Option<&[u8]>) -> Option<Seq<u8>> {
    match file {
        Some(bytes) => Some(bytes@),
        None => None,
    }
}

/// The document that an invocation on `path` works on: the cached one where
/// there is one, else what the bytes of the file parse to.
pub open spec fn document_for(
    cache: Map<Seq<char>, Json>,
    path: Seq<char>,
    file: Option<Seq<u8>>,
) -> Result<Json, MacroError> {
    if cache.contains_key(path) {
        Ok(cache[path])
    } else {
        match file {
            None => Err(MacroError::UnreadableFile),
            Some(bytes) => match parsed_json(bytes) {
                Some(document) => Ok(document),
                None => Err(MacroError::InvalidJson),
            },
        }
    }
}

/// The cache after an invocation on `path`: a document that had to be parsed
/// is stored, and nothing else changes.
pub open spec fn cache_after(
    cache: Map<Seq<char>, Json>,
    path: Seq<char>,
    file: Option<Seq<u8>>,
) -> Map<Seq<char>, Json> {
    if cache.contains_key(path) {
        cache
    } else {
        match document_for(cache, path, file) {
            Ok(document) => cache.insert(path, document),
            Err(_) => cache,
        }
    }
}

/// The value that an invocation addresses.
pub open spec fn extracted(
    cache: Map<Seq<char>, Json>,
    args: MacroArgsView,
    file: Option<Seq<u8>>,
) -> Result<Json, MacroError> {
    match document_for(cache, args.file_path, file) {
        Err(e) => Err(e),
        Ok(document) => match json_at(document, args.pointer) {
            Some(value) => Ok(value),
            None => Err(MacroError::PointerNotFound),
        },
    }
}

/// The source text of the tokens that stand for a value as a type: the
/// contents of the JSON string that the value has to be.
pub open spec fn type_source(value: Json) -> Result<Seq<char>, MacroError> {
    match value {
        Json::String(text) => Ok(text),
        _ => Err(MacroError::NotAString),
    }
}

/// The source text of the tokens that stand for a value as a literal: its
/// compact JSON text.
pub open spec fn literal_source(value: Json) -> Result<Seq<char>, MacroError> {
    match json_text(value) {
        Some(text) => Ok(text),
        None => Err(MacroError::Unserializable),
    }
}

/// The source text that `json_token` emits for an invocation.
pub open spec fn token_text_of(
    cache: Map<Seq<char>, Json>,
    args: MacroArgsView,
    file: Option<Seq<u8>>,
) -> Result<Seq<char>, MacroError> {
    match extracted(cache, args, file) {
        Err(e) => Err(e),
        Ok(value) => type_source(value),
    }
}

/// The source text that `json_literal` emits for an invocation.
pub open spec fn literal_text_of(
    cache: Map<Seq<char>, Json>,
    args: MacroArgsView,
    file: Option<Seq<u8>>,
) -> Result<Seq<char>, MacroError> {
    match extracted(cache, args, file) {
        Err(e) => Err(e),
        Ok(value) => literal_source(value),
    }
}

/// What is emitted for a source text, given what the lexer made of it: the
/// tokens, or [`MacroError::InvalidToken`] where it rejected the text.
pub open spec fn emitted(
    lexed: Result<proc_macro2::TokenStream, proc_macro2::LexError>,
) -> Result<proc_macro2::TokenStream, MacroError> {
    match lexed {
        Ok(tokens) => Ok(tokens),
        Err(_) => Err(MacroError::InvalidToken),
    }
}

/// Whether `r` is a possible outcome of emitting the source text `source`:
/// an error in `source` is passed on, and a text is either lexed into tokens
/// or rejected as [`MacroError::InvalidToken`], as the lexer decides.
pub open spec fn emits(
    source: Result<Seq<char>, MacroError>,
    r: Result<proc_macro2::TokenStream, MacroError>,
) -> bool {
    match source {
        Err(e) => r == Err::<proc_macro2::TokenStream, MacroError>(e),
        Ok(_) => r is Ok || r == Err::<proc_macro2::TokenStream, MacroError>(
            MacroError::InvalidToken,
        ),
    }
}

/// Finds the value that an invocation addresses, parsing and caching the
/// document first where the cache does not hold it yet.
pub fn extract_json(cache: &mut JsonCache, args: &MacroArgs, file: Option<&[u8]>) -> (r: Result<
    serde_json::Value,
    MacroError,
>)
    ensures
        match r {
            Ok(value) => extracted(old(cache)@, args@, file_bytes(file)) == Ok::<
                Json,
                MacroError,
            >(json_of(value)),
            Err(e) => extracted(old(cache)@, args@, file_bytes(file)) == Err::<Json, MacroError>(
                e,
            ),
        },
        final(cache)@ == cache_after(old(cache)@, args@.file_path, file_bytes(file)),
{
    if !cache.contains(args.file_path.as_str()) {
        let bytes = match file {
            Some(bytes) => bytes,
            None => {
                return Err(MacroError::UnreadableFile);
            },
        };
        let document = match parse_json(bytes) {
            Ok(document) => document,
            Err(_) => {
                return Err(MacroError::InvalidJson);
            },
        };
        cache.insert(args.file_path.clone(), document);
    }
    match cache.get(args.file_path.as_str()) {
        Some(document) => match value_at(document, args.pointer.as_str()) {
            Some(value) => Ok(value_copy(value)),
            None => Err(MacroError::PointerNotFound),
        },
        None => unreached(),
    }
}

/// The source text of a value as a type.
pub fn type_text(value: &serde_json::Value) -> (r: Result<String, MacroError>)
    ensures
        match r {
            Ok(text) => type_source(json_of(*value)) == Ok::<Seq<char>, MacroError>(text@),
            Err(e) => type_source(json_of(*value)) == Err::<Seq<char>, MacroError>(e),
        },
{
    match value_string(value) {
        Some(text) => Ok(text.to_owned()),
        None => Err(MacroError::NotAString),
    }
}

/// The source text of a value as a literal.
pub fn literal_text(value: &serde_json::Value) -> (r: Result<String, MacroError>)
    ensures
        match r {
            Ok(text) => literal_source(json_of(*value)) == Ok::<Seq<char>, MacroError>(text@),
            Err(e) => literal_source(json_of(*value)) == Err::<Seq<char>, MacroError>(e),
        },
{
    match value_text(value) {
        Ok(text) => Ok(text),
        Err(_) => Err(MacroError::Unserializable),
    }
}

/// Turns the lexer's answer into the outcome of an invocation.
pub fn tokens_or_error(lexed: Result<proc_macro2::TokenStream, proc_macro2::LexError>) -> (r:
    Result<proc_macro2::TokenStream, MacroError>)
    ensures
        r == emitted(lexed),
{
    match lexed {
        Ok(tokens) => Ok(tokens),
        Err(_) => Err(MacroError::InvalidToken),
    }
}

/// Expands an invocation into the type, path or other tokens that the
/// addressed JSON string spells.
pub fn json_token(cache: &mut JsonCache, args: &MacroArgs, file: Option<&[u8]>) -> (r: Result<
    proc_macro2::TokenStream,
    MacroError,
>)
    ensures
        emits(token_text_of(old(cache)@, args@, file_bytes(file)), r),
        final(cache)@ == cache_after(old(cache)@, args@.file_path, file_bytes(file)),
{
    let value = match extract_json(cache, args, file) {
        Ok(value) => value,
        Err(e) => {
            return Err(e);
        },
    };
    match type_text(&value) {
        Ok(text) => tokens_or_error(lex(text.as_str())),
        Err(e) => Err(e),
    }
}

/// Expands an invocation into the literal that the addressed value is when
/// written as JSON.
pub fn json_literal(cache: &mut JsonCache, args: &MacroArgs, file: Option<&[u8]>) -> (r: Result<
    proc_macro2::TokenStream,
    MacroError,
>)
    ensures
        emits(literal_text_of(old(cache)@, args@, file_bytes(file)), r),
        final(cache)@ == cache_after(old(cache)@, args@.file_path, file_bytes(file)),
{
    let value = match extract_json(cache, args, file) {
        Ok(value) => value,
        Err(e) => {
            return Err(e);
        },
    };
    match literal_text(&value) {
        Ok(text) => tokens_or_error(lex(text.as_str())),
        Err(e) => Err(e),
    }
}

} // verus!

//! Values of a JSON document, addressed by a JSON pointer, as Rust tokens.
//!
//! A macro invocation names a JSON file and a JSON pointer. The library reads
//! the two arguments from the invocation's tokens, keeps each parsed document
//! in a cache, resolves the pointer, and turns the value found into tokens:
//! a JSON string as the type or path that it spells, or any value as the
//! literal that its JSON text is.
//!
//! The library reads no file and keeps no global state: the caller owns the
//! [`JsonCache`] and reads a file when the cache has no document for it.
//!
//! ```ignore
//! let args = parse_args(input)?;
//! let file = if cache.contains(&args.file_path) { None } else { read(&args.file_path) };
//! let tokens = json_token(&mut cache, &args, file.as_deref())?;
//! ```
//!
//! What `proc_macro2` and `serde_json` do is trusted, not proved: [`tokens`]
//! and [`json`] hold the calls into them and say what is assumed of each.

pub mod args;
pub mod cache;
pub mod error;
pub mod expand;
pub mod json;
pub mod laws;
pub mod literal;
pub mod tokens;

pub use args::{args_from_literals, parse_args, MacroArgs};
pub use cache::JsonCache;
pub use error::MacroError;
pub use expand::{extract_json, json_literal, json_token, literal_text, tokens_or_error, type_text};
pub use literal::extract_string_lit;

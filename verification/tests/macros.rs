use proc_macro2::TokenStream;
use static_json_pointer::{json_literal, json_token, parse_args, JsonCache, MacroError};

/// The document that the invocations below point into.
fn schema() -> &'static [u8] {
    br#"{
        "foo": { "type": "String", "value": "FOO" },
        "bar": { "type": "u32", "value": 42 },
        "baz": { "type": "Option<String>", "value": null },
        "qux": { "type": "&'static str", "value": [1.5, true, {"k": "v"}] }
    }"#
}

fn tokens(source: &str) -> TokenStream {
    source.parse().unwrap()
}

/// What `json_token!(..)` gives for the tokens between its brackets, as
/// source text, with `schema()` as the file behind every path.
fn token(invocation: &str) -> Result<String, MacroError> {
    let args = parse_args(tokens(invocation))?;
    let mut cache = JsonCache::new();
    let file = if cache.contains(&args.file_path) { None } else { Some(schema()) };
    json_token(&mut cache, &args, file).map(|stream| stream.to_string())
}

/// The same for `json_literal!(..)`.
fn literal(invocation: &str) -> Result<String, MacroError> {
    let args = parse_args(tokens(invocation))?;
    let mut cache = JsonCache::new();
    let file = if cache.contains(&args.file_path) { None } else { Some(schema()) };
    json_literal(&mut cache, &args, file).map(|stream| stream.to_string())
}

#[test]
fn string() {
    assert_eq!(tokens("String").to_string(), token(r#""schema.json", "/foo/type""#).unwrap());
}

#[test]
fn number() {
    assert_eq!(tokens("u32").to_string(), token(r#""schema.json", "/bar/type""#).unwrap());
}

#[test]
fn opt_str() {
    assert_eq!(
        tokens("Option<String>").to_string(),
        token(r#""schema.json", "/baz/type""#).unwrap()
    );
}

#[test]
fn static_str() {
    assert_eq!(
        tokens("&'static str").to_string(),
        token(r#""schema.json", "/qux/type""#).unwrap()
    );
}

#[test]
fn literal_string() {
    assert_eq!(
        tokens("\"FOO\"").to_string(),
        literal(r#""schema.json", "/foo/value""#).unwrap()
    );
}

#[test]
fn literal_num() {
    assert_eq!(tokens("42").to_string(), literal(r#""schema.json", "/bar/value""#).unwrap());
}

#[test]
fn null_token_and_literal() {
    assert_eq!(
        tokens("Option<String>").to_string(),
        token(r#""schema.json", "/baz/type""#).unwrap()
    );
    assert_eq!(tokens("null").to_string(), literal(r#""schema.json", "/baz/value""#).unwrap());
}

#[test]
fn token_is_the_string_without_its_quotes() {
    assert_eq!(token(r#""schema.json", "/foo/type""#).unwrap(), "String");
    assert_eq!(token(r#""schema.json", "/foo/value""#).unwrap(), "FOO");
    assert_eq!(literal(r#""schema.json", "/foo/type""#).unwrap(), "\"String\"");
}

#[test]
fn literal_of_a_compound_value_is_its_compact_text() {
    let expected = tokens(r#"[1.5, true, {"k": "v"}]"#).to_string();
    assert_eq!(literal(r#""schema.json", "/qux/value""#).unwrap(), expected);
    assert_eq!(literal(r#""schema.json", "/qux/value/0""#).unwrap(), "1.5");
    assert_eq!(literal(r#""schema.json", "/qux/value/1""#).unwrap(), "true");
    assert_eq!(literal(r#""schema.json", "/qux/value/2/k""#).unwrap(), "\"v\"");
}

#[test]
fn empty_pointer_addresses_the_whole_document() {
    // Members come out in the order of their names.
    let expected = tokens(
        r#"{"bar":{"type":"u32","value":42},"baz":{"type":"Option<String>","value":null},"foo":{"type":"String","value":"FOO"},"qux":{"type":"&'static str","value":[1.5,true,{"k":"v"}]}}"#,
    );
    assert_eq!(literal(r#""schema.json", """#).unwrap(), expected.to_string());
}

#[test]
fn token_of_a_value_that_is_no_string_is_refused() {
    assert_eq!(token(r#""schema.json", "/bar/value""#), Err(MacroError::NotAString));
    assert_eq!(token(r#""schema.json", "/baz/value""#), Err(MacroError::NotAString));
    assert_eq!(token(r#""schema.json", "/foo""#), Err(MacroError::NotAString));
    assert_eq!(token(r#""schema.json", """#), Err(MacroError::NotAString));
}

#[test]
fn pointer_to_nothing_is_refused() {
    assert_eq!(token(r#""schema.json", "/nope""#), Err(MacroError::PointerNotFound));
    assert_eq!(literal(r#""schema.json", "/foo/type/deeper""#), Err(MacroError::PointerNotFound));
    assert_eq!(literal(r#""schema.json", "foo""#), Err(MacroError::PointerNotFound));
    assert_eq!(literal(r#""schema.json", "/qux/value/3""#), Err(MacroError::PointerNotFound));
    assert_eq!(literal(r#""schema.json", "/qux/value/01""#), Err(MacroError::PointerNotFound));
}

#[test]
fn text_that_is_no_rust_is_refused() {
    let args = parse_args(tokens(r#""types.json", "/t""#)).unwrap();
    let mut cache = JsonCache::new();
    let file = br#"{"t": "Vec<(u8"}"#;
    assert!(matches!(
        json_token(&mut cache, &args, Some(&file[..])),
        Err(MacroError::InvalidToken)
    ));
    // The same string is a fine literal.
    let emitted = json_literal(&mut cache, &args, None).unwrap();
    assert_eq!(emitted.to_string(), "\"Vec<(u8\"");
}

#[test]
fn arguments_come_before_the_file() {
    // Without two literal arguments nothing is looked up at all.
    assert_eq!(token(r#""schema.json""#), Err(MacroError::MissingArguments));
    assert_eq!(literal(r#"schema, "/foo/type""#), Err(MacroError::FirstArgumentNotLiteral));
    assert_eq!(literal(r#""schema.json", pointer"#), Err(MacroError::SecondArgumentNotLiteral));
    assert_eq!(token(r#"1, "/foo/type""#), Err(MacroError::UnquotedLiteral));
}

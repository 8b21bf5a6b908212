//! The text between the quotes of a literal's source form.

use vstd::prelude::*;
use vstd::string::StrSliceExecFns;

verus! {

/// The double quote that opens and closes a string literal.
pub const QUOTE: char = '"';

/// What stands between the first and the last double quote of `text`, where
/// `text` holds at least two of them.
///
/// Prefixes such as `r#` or `b` in front of the first quote and suffixes behind
/// the last one are left out; escapes between the quotes are kept as written.
pub open spec fn quoted_text(text: Seq<char>) -> Option<Seq<char>> {
    match (text.index_of_first(QUOTE), text.index_of_last(QUOTE)) {
        (Some(start), Some(end)) => if start < end {
            Some(text.subrange(start + 1, end))
        } else {
            None
        },
        _ => None,
    }
}

/// The first and the last quote of a text are where a scan from either end
/// stops.
pub proof fn lemma_outer_quotes(text: Seq<char>, start: int, end: int)
    requires
        0 <= start <= end < text.len(),
        text[start] == QUOTE,
        text[end] == QUOTE,
        forall|k: int| 0 <= k < start ==> text[k] != QUOTE,
        forall|k: int| end < k < text.len() ==> text[k] != QUOTE,
    ensures
        text.index_of_first(QUOTE) == Some(start),
        text.index_of_last(QUOTE) == Some(end),
{
    text.index_of_first_ensures(QUOTE);
    text.index_of_last_ensures(QUOTE);
    assert(text.contains(QUOTE));
}

/// A text without a quote has neither a first nor a last one.
pub proof fn lemma_no_quotes(text: Seq<char>)
    requires
        forall|k: int| 0 <= k < text.len() ==> text[k] != QUOTE,
    ensures
        text.index_of_first(QUOTE) is None,
        text.index_of_last(QUOTE) is None,
{
    text.index_of_first_ensures(QUOTE);
    text.index_of_last_ensures(QUOTE);
}

/// A text of fewer than two characters holds no two quotes.
pub proof fn lemma_short_text(text: Seq<char>)
    requires
        text.len() < 2,
    ensures
        quoted_text(text) is None,
{
    text.index_of_first_ensures(QUOTE);
    text.index_of_last_ensures(QUOTE);
}

/// Takes the part of a literal's source text that stands between its first and
/// its last double quote: `"a/b"` gives `a/b`, and so does `r#"a/b"#`.
///
/// Returns `None` where the text holds no quote or only one.
pub fn extract_string_lit(text: &str) -> (part: Option<&str>)
    ensures
        match part {
            Some(p) => quoted_text(text@) == Some(p@),
            None => quoted_text(text@) is None,
        },
{
    let len: usize = text.unicode_len();
    if len < 2 {
        proof {
            lemma_short_text(text@);
        }
        return None;
    }
    let mut seen: usize = 0;
    let mut outer: Option<(usize, usize)> = None;
    for c in it: text.chars()
        invariant
            len == text@.len(),
            it.seq() == text@,
            seen == it.index(),
            match outer {
                None => forall|k: int| 0 <= k < seen ==> text@[k] != QUOTE,
                Some((start, end)) => {
                    &&& start <= end < seen
                    &&& text@[start as int] == QUOTE
                    &&& text@[end as int] == QUOTE
                    &&& forall|k: int| 0 <= k < start ==> text@[k] != QUOTE
                    &&& forall|k: int| end < k < seen ==> text@[k] != QUOTE
                },
            },
    {
        if c == QUOTE {
            outer = match outer {
                None => Some((seen, seen)),
                Some((start, _)) => Some((start, seen)),
            };
        }
        seen += 1;
    }
    match outer {
        None => {
            proof {
                lemma_no_quotes(text@);
            }
            None
        },
        Some((start, end)) => {
            proof {
                lemma_outer_quotes(text@, start as int, end as int);
            }
            if start < end {
                Some(text.substring_char(start + 1, end))
            } else {
                None
            }
        },
    }
}

} // verus!

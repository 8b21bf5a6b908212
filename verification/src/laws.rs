//! What holds of the cache, whatever the documents are.

use vstd::prelude::*;
use crate::args::MacroArgsView;
use crate::expand::{cache_after, document_for, extracted, literal_text_of, token_text_of};
use crate::json::{parsed_json, Json};

verus! {

/// A cache agrees with a file where the document that it holds under the
/// file's path, if it holds one, is what the file's bytes parse to.
pub open spec fn cache_agrees(
    cache: Map<Seq<char>, Json>,
    path: Seq<char>,
    bytes: Seq<u8>,
) -> bool {
    cache.contains_key(path) ==> parsed_json(bytes) == Some(cache[path])
}

/// An invocation never takes a document out of the cache nor changes one: it
/// adds at most the document of its own file.
pub proof fn lemma_cache_only_grows(
    cache: Map<Seq<char>, Json>,
    path: Seq<char>,
    file: Option<Seq<u8>>,
)
    ensures
        cache.submap_of(cache_after(cache, path, file)),
        cache_after(cache, path, file).dom().subset_of(cache.dom().insert(path)),
{
}

/// Once an invocation has found its document, every later invocation on the
/// same path works on that document and leaves the cache alone, whatever
/// the file holds by then.
pub proof fn lemma_cached_document_stays(
    cache: Map<Seq<char>, Json>,
    path: Seq<char>,
    file: Option<Seq<u8>>,
    later: Option<Seq<u8>>,
)
    requires
        document_for(cache, path, file) is Ok,
    ensures
        document_for(cache_after(cache, path, file), path, later) == document_for(
            cache,
            path,
            file,
        ),
        cache_after(cache_after(cache, path, file), path, later) == cache_after(cache, path, file),
{
}

/// Repeating an invocation on the same file gives the same value, the same
/// text to emit, and a cache that the repetition does not change.
pub proof fn lemma_repeating_changes_nothing(
    cache: Map<Seq<char>, Json>,
    args: MacroArgsView,
    file: Option<Seq<u8>>,
)
    ensures
        ({
            let after = cache_after(cache, args.file_path, file);
            &&& extracted(after, args, file) == extracted(cache, args, file)
            &&& token_text_of(after, args, file) == token_text_of(cache, args, file)
            &&& literal_text_of(after, args, file) == literal_text_of(cache, args, file)
            &&& cache_after(after, args.file_path, file) == after
        }),
{
}

/// With a cache that agrees with the file, an invocation gives what it gives
/// without any cache, and the cache agrees with the file afterwards too.
pub proof fn lemma_cache_is_transparent(
    cache: Map<Seq<char>, Json>,
    args: MacroArgsView,
    bytes: Seq<u8>,
)
    requires
        cache_agrees(cache, args.file_path, bytes),
    ensures
        ({
            let none = Map::<Seq<char>, Json>::empty();
            &&& extracted(cache, args, Some(bytes)) == extracted(none, args, Some(bytes))
            &&& token_text_of(cache, args, Some(bytes)) == token_text_of(none, args, Some(bytes))
            &&& literal_text_of(cache, args, Some(bytes)) == literal_text_of(
                none,
                args,
                Some(bytes),
            )
        }),
        cache_agrees(cache_after(cache, args.file_path, Some(bytes)), args.file_path, bytes),
{
}

} // verus!

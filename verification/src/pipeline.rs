//! Element resolution for one document: the snapshot of the image sources,
//! the replacements computed for them, and their application by position.

use vstd::prelude::*;
use crate::classify::{classified_path, validate_string};
use crate::encode::{bytes_to_base64, data_uri, encoded_replacement};
use crate::media::{located_file, validate_path};

verus! {

/// Why a document cannot be processed at all.
#[derive(Debug, Clone, Copy, PartialEq, Eq, Structural)]
pub enum DocumentError {
    /// The document holds no image element.
    NoImageElements,
    /// The image element at this position has no `src` attribute.
    MissingSource { index: usize },
}

/// Takes the snapshot of a document's image sources, in document order.
///
/// `attrs` holds, for each image element, the value of its `src` attribute
/// if it has one. A document without image elements is refused, and so is
/// one with an image element that lacks the attribute; the error names the
/// first such element.
pub fn snapshot_sources(attrs: &Vec<Option<String>>) -> (snapshot: Result<Vec<String>, DocumentError>)
    ensures
        snapshot is Ok <==> attrs.len() > 0 && forall|i: int|
            0 <= i < attrs.len() ==> (#[trigger] attrs[i]) is Some,
        match snapshot {
            Ok(sources) => {
                &&& sources.len() == attrs.len()
                &&& forall|i: int|
                    #![trigger attrs[i]]
                    #![trigger sources[i]]
                    0 <= i < attrs.len() ==> attrs[i] == Some(sources[i])
            },
            Err(DocumentError::NoImageElements) => attrs.len() == 0,
            Err(DocumentError::MissingSource { index }) => {
                &&& index < attrs.len()
                &&& attrs[index as int] is None
                &&& forall|j: int| 0 <= j < index ==> (#[trigger] attrs[j]) is Some
            },
        },
{
    if attrs.len() == 0 {
        return Err(DocumentError::NoImageElements);
    }
    let mut sources: Vec<String> = Vec::new();
    let mut i: usize = 0;
    while i < attrs.len()
        invariant
            i <= attrs.len(),
            sources.len() == i,
            forall|j: int| 0 <= j < i ==> attrs[j] == Some(#[trigger] sources[j]),
            forall|j: int| 0 <= j < i ==> (#[trigger] attrs[j]) is Some,
        decreases attrs.len() - i,
    {
        match &attrs[i] {
            Some(source) => {
                sources.push(source.clone());
            },
            None => {
                return Err(DocumentError::MissingSource { index: i });
            },
        }
        i += 1;
    }
    Ok(sources)
}

/// Computes the replacement of every image source of a document from what
/// was loaded for it, position by position: a `data:` URI where a resource
/// was loaded, nothing where none was.
pub fn get_modification(loaded: Vec<Option<(Vec<u8>, String)>>) -> (modification: Vec<
    Option<String>,
>)
    ensures
        modification.len() == loaded.len(),
        forall|i: int|
            0 <= i < loaded.len() ==> (#[trigger] modification[i]).deep_view()
                == encoded_replacement(loaded[i].deep_view()),
{
    let ghost resources = loaded@;
    let mut modification: Vec<Option<String>> = Vec::new();
    for resource in it: loaded.into_iter()
        invariant
            it.seq() == resources,
            modification.len() == it.index(),
            forall|i: int|
                0 <= i < it.index() ==> (#[trigger] modification[i]).deep_view()
                    == encoded_replacement(resources[i].deep_view()),
    {
        let replacement = bytes_to_base64(resource);
        modification.push(replacement);
    }
    modification
}

/// The image sources after the replacements are applied: the replacement
/// where there is one at the same position, the value as it was elsewhere.
pub open spec fn applied(orig: Seq<Seq<char>>, modification: Seq<Option<Seq<char>>>) -> Seq<
    Seq<char>,
> {
    Seq::new(
        orig.len(),
        |i: int|
            if i < modification.len() && modification[i] is Some {
                modification[i]->0
            } else {
                orig[i]
            },
    )
}

/// Lays the replacements onto the image sources by position: source `i`
/// takes replacement `i` where one is present and keeps its value where
/// none is. Nothing else changes; what goes beyond the shorter of the two
/// sequences is left alone.
pub fn apply_modification(orig_data: &mut Vec<String>, modification: Vec<Option<String>>)
    ensures
        final(orig_data).len() == old(orig_data).len(),
        forall|i: int|
            0 <= i < old(orig_data).len() && i < modification.len() && modification[i] is Some
                ==> #[trigger] final(orig_data)[i] == modification[i]->0,
        forall|i: int|
            0 <= i < old(orig_data).len() && !(i < modification.len() && modification[i] is Some)
                ==> #[trigger] final(orig_data)[i] == old(orig_data)[i],
        final(orig_data).deep_view() == applied(
            old(orig_data).deep_view(),
            modification.deep_view(),
        ),
{
    let ghost planned = modification@;
    let ghost planned_text = modification.deep_view();
    let count: usize = modification.len();
    let mut i: usize = 0;
    for replacement in it: modification.into_iter()
        invariant
            it.seq() == planned,
            planned.len() == count,
            i == it.index(),
            orig_data.len() == old(orig_data).len(),
            forall|j: int|
                0 <= j < orig_data.len() ==> #[trigger] orig_data[j] == (if j < i
                    && planned[j] is Some {
                    planned[j]->0
                } else {
                    old(orig_data)[j]
                }),
    {
        if i < orig_data.len() {
            if let Some(modified_src) = replacement {
                orig_data.set(i, modified_src);
            }
        }
        i += 1;
    }
    assert(orig_data.deep_view() =~= applied(old(orig_data).deep_view(), planned_text));
}

/// What loading makes of a located file: its bytes under its media type.
pub open spec fn loaded_resource(located: Option<(Seq<char>, Seq<char>)>, bytes: Seq<u8>) -> Option<
    (Seq<u8>, Seq<char>),
> {
    match located {
        Some((path, media_type)) => Some((bytes, media_type)),
        None => None,
    }
}

/// The replacement for a raw source, where `is_file` says whether the path
/// it denotes names a regular file and `bytes` is what that file holds.
pub open spec fn resolved(raw: Seq<char>, is_file: bool, bytes: Seq<u8>) -> Option<Seq<char>> {
    encoded_replacement(loaded_resource(located_file(classified_path(raw), is_file), bytes))
}

/// One run of the three stages on a raw source: classification gave `path`,
/// the loader's decision gave `located`, the file's bytes were put in place
/// of its path, and encoding gave `replacement`.
pub open spec fn is_run(
    raw: String,
    is_file: bool,
    bytes: Vec<u8>,
    path: Option<String>,
    located: Option<(String, String)>,
    loaded: Option<(Vec<u8>, String)>,
    replacement: Option<String>,
) -> bool {
    &&& call_ensures(validate_string, (raw,), path)
    &&& call_ensures(validate_path, (path, is_file), located)
    &&& loaded.deep_view() == loaded_resource(located.deep_view(), bytes@)
    &&& call_ensures(bytes_to_base64, (loaded,), replacement)
}

/// A run of the stages ends in the replacement that the source, the file's
/// kind and the file's bytes determine.
pub proof fn lemma_run_gives_resolved(
    raw: String,
    is_file: bool,
    bytes: Vec<u8>,
    path: Option<String>,
    located: Option<(String, String)>,
    loaded: Option<(Vec<u8>, String)>,
    replacement: Option<String>,
)
    requires
        is_run(raw, is_file, bytes, path, located, loaded, replacement),
    ensures
        replacement.deep_view() == resolved(raw@, is_file, bytes@),
{
}

/// Two runs on the same source and the same file end in the same text.
pub proof fn lemma_runs_agree(
    raw: String,
    is_file: bool,
    bytes: Vec<u8>,
    first: (Option<String>, Option<(String, String)>, Option<(Vec<u8>, String)>, Option<String>),
    second: (Option<String>, Option<(String, String)>, Option<(Vec<u8>, String)>, Option<String>),
)
    requires
        is_run(raw, is_file, bytes, first.0, first.1, first.2, first.3),
        is_run(raw, is_file, bytes, second.0, second.1, second.2, second.3),
    ensures
        first.3.deep_view() == second.3.deep_view(),
{
    lemma_run_gives_resolved(raw, is_file, bytes, first.0, first.1, first.2, first.3);
    lemma_run_gives_resolved(raw, is_file, bytes, second.0, second.1, second.2, second.3);
}

/// Absence at any stage is final: a source is replaced exactly where it
/// denotes a path, the path names a regular file, and the file has a media
/// type.
pub proof fn lemma_resolved_iff(raw: Seq<char>, is_file: bool, bytes: Seq<u8>)
    ensures
        resolved(raw, is_file, bytes) is Some <==> classified_path(raw) is Some && is_file
            && crate::media::guessed_media_type(classified_path(raw)->0) is Some,
        resolved(raw, is_file, bytes) matches Some(uri) ==> uri == data_uri(
            crate::media::guessed_media_type(classified_path(raw)->0)->0,
            bytes,
        ),
{
}

/// A source whose path names no regular file gets no replacement, and
/// applying the replacements leaves it as it was.
pub proof fn lemma_missing_file_keeps_source(
    raw: Seq<char>,
    bytes: Seq<u8>,
    orig: Seq<Seq<char>>,
    modification: Seq<Option<Seq<char>>>,
    i: int,
)
    requires
        0 <= i < orig.len(),
        i < modification.len(),
        orig[i] == raw,
        modification[i] == resolved(raw, false, bytes),
    ensures
        resolved(raw, false, bytes) is None,
        applied(orig, modification)[i] == raw,
{
}

/// Applying replacements changes the sources at the positions that have a
/// replacement and at no others, and keeps their number.
pub proof fn lemma_applied_by_position(orig: Seq<Seq<char>>, modification: Seq<Option<Seq<char>>>)
    ensures
        applied(orig, modification).len() == orig.len(),
        forall|i: int|
            0 <= i < orig.len() && i < modification.len() && modification[i] is Some
                ==> #[trigger] applied(orig, modification)[i] == modification[i]->0,
        forall|i: int|
            0 <= i < orig.len() && !(i < modification.len() && modification[i] is Some)
                ==> #[trigger] applied(orig, modification)[i] == orig[i],
{
}

} // verus!

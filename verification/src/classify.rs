//! Source classifier: tells local file references from everything else.

use vstd::prelude::*;
use vstd::string::*;

verus! {

/// The scheme prefix of a `file://` reference.
pub open spec fn file_scheme() -> Seq<char> {
    "file://"@
}

/// Whether `raw` is written as a filesystem path: relative to the current or
/// the parent directory, or absolute.
pub open spec fn is_plain_path(raw: Seq<char>) -> bool {
    "./"@.is_prefix_of(raw) || "../"@.is_prefix_of(raw) || "/"@.is_prefix_of(raw)
}

/// Whether `raw` uses one of the recognised local-reference syntaxes.
pub open spec fn is_local_reference(raw: Seq<char>) -> bool {
    file_scheme().is_prefix_of(raw) || is_plain_path(raw)
}

/// The filesystem path that a raw attribute value denotes, if any.
///
/// A `file://` reference denotes what follows the scheme; a plain path
/// denotes itself; anything else denotes no local file. The path is not
/// normalised any further.
pub open spec fn classified_path(raw: Seq<char>) -> Option<Seq<char>> {
    if file_scheme().is_prefix_of(raw) {
        Some(raw.skip(file_scheme().len() as int))
    } else if is_plain_path(raw) {
        Some(raw)
    } else {
        None
    }
}

/// Whether `text`, which is `text_len` characters long, begins with `prefix`.
fn starts_with(text: &str, text_len: usize, prefix: &str) -> (found: bool)
    requires
        text_len == text@.len(),
    ensures
        found == prefix@.is_prefix_of(text@),
{
    let prefix_len: usize = prefix.unicode_len();
    if prefix_len > text_len {
        return false;
    }
    let mut i: usize = 0;
    while i < prefix_len
        invariant
            i <= prefix_len,
            prefix_len == prefix@.len(),
            prefix_len <= text@.len(),
            forall|j: int| 0 <= j < i ==> text@[j] == prefix@[j],
        decreases prefix_len - i,
    {
        if text.get_char(i) != prefix.get_char(i) {
            assert(text@.subrange(0, prefix_len as int)[i as int] != prefix@[i as int]);
            return false;
        }
        i += 1;
    }
    assert(text@.subrange(0, prefix_len as int) =~= prefix@);
    true
}

/// Classifies the raw value of a `src` attribute.
///
/// Returns the path of the local file that the value refers to, or `None`
/// where the value is no local reference (a remote URL, a `data:` URI, a
/// fragment, an unknown scheme).
pub fn validate_string(s: String) -> (path: Option<String>)
    ensures
        path.deep_view() == classified_path(s@),
        !is_local_reference(s@) ==> path is None,
        forall|rest: Seq<char>| s@ == file_scheme() + rest ==> path.deep_view() == Some(rest),
{
    proof {
        reveal_strlit("file://");
        reveal_strlit("./");
        reveal_strlit("../");
        reveal_strlit("/");
    }
    let text = s.as_str();
    let len: usize = text.unicode_len();
    assert forall|rest: Seq<char>| s@ == file_scheme() + rest implies classified_path(s@) == Some(
        rest,
    ) by {
        assert(s@.subrange(0, 7) =~= file_scheme());
        assert(s@.skip(7) =~= rest);
    }
    if starts_with(text, len, "file://") {
        let rest = text.substring_char(7, len);
        Some(rest.to_owned())
    } else if starts_with(text, len, "./") || starts_with(text, len, "../") || starts_with(
        text,
        len,
        "/",
    ) {
        Some(s)
    } else {
        None
    }
}

} // verus!

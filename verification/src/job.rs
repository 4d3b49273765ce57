//! Document jobs: where the rewritten document of an input file goes.

use vstd::prelude::*;

verus! {

/// What `path` becomes when the extension of its file name is replaced by
/// `extension`.
pub uninterp spec fn path_with_extension(path: Seq<char>, extension: Seq<char>) -> Seq<char>;

/// The extension that marks a document as processed.
pub open spec fn inlined_extension() -> Seq<char> {
    "inlined.html"@
}

/// `std::path::Path::with_extension`, from text to text. The new path is
/// computed from the two texts alone, by the path syntax of the platform
/// that the crate is built for; the file system is not touched. The
/// contract gives that result its name. The standard library panics where
/// the extension holds a path separator, so such an extension is not
/// accepted.
#[verifier::external_body]
fn with_extension(path: &str, extension: &str) -> (renamed: String)
    requires
        !extension@.contains('/'),
        !extension@.contains('\\'),
    ensures
        renamed@ == path_with_extension(path@, extension@),
{
    std::path::Path::new(path).with_extension(extension).to_string_lossy().into_owned()
}

/// The path under which the rewritten document of `input` is written: the
/// input path with its extension replaced by `inlined.html`. The input file
/// itself stays as it is.
pub fn output_path(input: &str) -> (output: String)
    ensures
        output@ == path_with_extension(input@, inlined_extension()),
{
    proof {
        reveal_strlit("inlined.html");
    }
    with_extension(input, "inlined.html")
}

} // verus!

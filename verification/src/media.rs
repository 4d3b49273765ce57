//! Resource loader, the part that decides: which classified paths qualify
//! for loading, and under which media type.

use vstd::prelude::*;

verus! {

/// The media type that the extension of `path` suggests, in its textual
/// form such as `image/png`, or `None` where the path has no extension or
/// the extension is not known.
pub uninterp spec fn guessed_media_type(path: Seq<char>) -> Option<Seq<char>>;

/// `mime_guess::from_path` followed by `MimeGuess::first`, with the media
/// type handed out as the text that `mime::Mime` displays. The guess is
/// looked up in a table that is fixed when the crate is built, by the
/// extension that `std::path::Path::extension` finds in the path; nothing
/// on disk is read. The contract gives that result its name.
#[verifier::external_body]
fn guess_media_type(path: &str) -> (guess: Option<String>)
    ensures
        guess.deep_view() == guessed_media_type(path@),
{
    let first: Option<mime::Mime> = mime_guess::from_path(path).first();
    match first {
        Some(media_type) => Some(media_type.to_string()),
        None => None,
    }
}

/// The file to load for a classified path, with its media type: present
/// where the path is there, names a regular file, and has a media type.
pub open spec fn located_file(path: Option<Seq<char>>, is_file: bool) -> Option<
    (Seq<char>, Seq<char>),
> {
    match path {
        Some(p) => if is_file {
            with_guess(p, guessed_media_type(p))
        } else {
            None
        },
        None => None,
    }
}

/// A path together with the media type guessed for it, if there is one.
pub open spec fn with_guess(path: Seq<char>, guess: Option<Seq<char>>) -> Option<
    (Seq<char>, Seq<char>),
> {
    match guess {
        Some(media_type) => Some((path, media_type)),
        None => None,
    }
}

/// Pairs the path of a regular file with the media type guessed for it. A
/// file without a media type is not loaded.
pub fn with_media_type(path: String, guess: Option<String>) -> (located: Option<(String, String)>)
    ensures
        located.deep_view() == with_guess(path@, guess.deep_view()),
        located is Some <==> guess is Some,
{
    match guess {
        Some(media_type) => Some((path, media_type)),
        None => None,
    }
}

/// Decides whether a classified path is to be loaded.
///
/// `is_file` says whether the path names an existing regular file; the
/// caller finds that out. The result holds the path and its media type, or
/// `None` where there is no path, no regular file, or no media type for it.
pub fn validate_path(s: Option<String>, is_file: bool) -> (located: Option<(String, String)>)
    ensures
        located.deep_view() == located_file(s.deep_view(), is_file),
        located is Some <==> s is Some && is_file && guessed_media_type(s->0@) is Some,
        located matches Some(found) ==> found.0@ == s->0@,
{
    match s {
        Some(path) => {
            if is_file {
                let guess = guess_media_type(path.as_str());
                with_media_type(path, guess)
            } else {
                None
            }
        },
        None => None,
    }
}

} // verus!

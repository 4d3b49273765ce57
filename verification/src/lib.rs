//! Inlining of local images into HTML documents.
//!
//! An image element whose `src` attribute names a local file is rewritten so
//! that the attribute holds a `data:` URI with the file's content. This crate
//! holds the rules of that rewriting: which attribute values denote a local
//! file, which files qualify, what the replacement text is, and how a
//! document's replacements are laid back onto its elements.
//!
//! Reading files and walking the element tree is left to the caller, who
//! hands in what was found as plain values.

pub mod classify;
pub mod encode;
pub mod job;
pub mod media;
pub mod pipeline;

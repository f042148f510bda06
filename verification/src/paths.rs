//! File-system paths as text, and what `std::path` reads from them.
//!
//! The library holds a path as a `String`. The parts of a path are found by
//! `std::path::Path`, whose results are named here and not spelled out: they
//! follow the path syntax of the platform that the library is built for.

use vstd::prelude::*;
use std::path::Path;
use crate::text::opt_text;

verus! {

/// The final component of `path`, as `Path::file_name` gives it.
pub uninterp spec fn path_file_name(path: Seq<char>) -> Option<Seq<char>>;

/// The extension of `path`, without its dot, as `Path::extension` gives it.
pub uninterp spec fn path_extension(path: Seq<char>) -> Option<Seq<char>>;

/// `path` with its extension set to `extension`, as `Path::with_extension` gives it.
pub uninterp spec fn path_with_extension(path: Seq<char>, extension: Seq<char>) -> Seq<char>;

/// Whether `extension` is free of path separators.
pub open spec fn is_plain_extension(extension: Seq<char>) -> bool {
    forall|i: int| 0 <= i < extension.len() ==> extension[i] != '/' && extension[i] != '\\'
}

/// Calls `std::path::Path::file_name`. Trusted: the result is the named
/// final component of the path, or `None` where std finds none (the path
/// ends in `..`, or is empty or a root).
#[verifier::external_body]
pub(crate) fn file_name(path: &str) -> (r: Option<String>)
    ensures
        opt_text(r) == path_file_name(path@),
{
    Path::new(path).file_name().and_then(|n| n.to_str()).map(str::to_owned)
}

/// Calls `std::path::Path::extension`. Trusted: the result is the named
/// extension of the path's final component, or `None` where std finds none.
#[verifier::external_body]
pub(crate) fn extension(path: &str) -> (r: Option<String>)
    ensures
        opt_text(r) == path_extension(path@),
{
    Path::new(path).extension().and_then(|e| e.to_str()).map(str::to_owned)
}

/// Calls `std::path::Path::with_extension`. Trusted: the result is the named
/// path. std panics on an extension that holds a path separator, so such an
/// extension is not accepted.
#[verifier::external_body]
pub(crate) fn with_extension(path: &str, extension: &str) -> (r: String)
    requires
        is_plain_extension(extension@),
    ensures
        r@ == path_with_extension(path@, extension@),
{
    Path::new(path).with_extension(extension).to_string_lossy().into_owned()
}

} // verus!

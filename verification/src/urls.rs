//! URLs as text, and what the `url` crate makes of them.

use vstd::prelude::*;
use url::Url;
use crate::text::opt_text;

verus! {

/// The URL that `reference` resolves to against the URL written as `base`,
/// by the standard rules for joining a relative reference onto a base; `None`
/// where `base` is no URL or the reference cannot be resolved.
pub uninterp spec fn url_join(base: Seq<char>, reference: Seq<char>) -> Option<Seq<char>>;

/// The `file` URL of the absolute path `path`; `None` where the path is not
/// absolute.
pub uninterp spec fn url_from_file_path(path: Seq<char>) -> Option<Seq<char>>;

/// Calls `url::Url::join` on the URL that `url::Url::parse` reads from
/// `base`. Trusted: the result is the serialization of the named URL, and
/// `None` exactly where parsing or joining reports an error.
#[verifier::external_body]
pub(crate) fn join(base: &str, reference: &str) -> (r: Option<String>)
    ensures
        opt_text(r) == url_join(base@, reference@),
{
    Url::parse(base).ok()?.join(reference).ok().map(String::from)
}

/// Calls `url::Url::from_file_path`. Trusted: the result is the
/// serialization of the named URL, and `None` exactly where the crate
/// refuses the path.
#[verifier::external_body]
pub(crate) fn from_file_path(path: &str) -> (r: Option<String>)
    ensures
        opt_text(r) == url_from_file_path(path@),
{
    Url::from_file_path(path).ok().map(String::from)
}

} // verus!

//! The archive of an artifact: a gzip-compressed tar with one entry.

use vstd::prelude::*;
use std::io::Write;
use flate2::Compression;
use flate2::write::GzEncoder;
use path_absolutize::Absolutize;
use std::path::Path;

verus! {

/// The bytes of an optional buffer.
pub open spec fn opt_bytes(o: Option<Vec<u8>>) -> Option<Seq<u8>> {
    match o {
        Some(v) => Some(v@),
        None => None,
    }
}

/// The tar archive whose one entry is a regular file called `name` with the
/// bytes `contents` and the given mode, modification time, owner and group;
/// `None` where `name` cannot name an entry.
pub uninterp spec fn tar_of(
    name: Seq<char>,
    contents: Seq<u8>,
    mode: u32,
    mtime: u64,
    uid: u64,
    gid: u64,
) -> Option<Seq<u8>>;

/// The gzip stream that compresses `data` at the default level.
pub uninterp spec fn gzip_of(data: Seq<u8>) -> Option<Seq<u8>>;

/// Builds a GNU header for a regular file and calls
/// `tar::Builder::append_data` and `tar::Builder::into_inner` on an empty
/// buffer. Trusted: the result is the named archive, and `None` exactly
/// where the crate reports an error.
#[verifier::external_body]
pub(crate) fn tar_single_entry(
    name: &str,
    contents: &[u8],
    mode: u32,
    mtime: u64,
    uid: u64,
    gid: u64,
) -> (r: Option<Vec<u8>>)
    ensures
        opt_bytes(r) == tar_of(name@, contents@, mode, mtime, uid, gid),
{
    let mut header = tar::Header::new_gnu();
    header.set_size(contents.len() as u64);
    header.set_mode(mode);
    header.set_mtime(mtime);
    header.set_uid(uid);
    header.set_gid(gid);
    header.set_entry_type(tar::EntryType::Regular);
    let mut builder = tar::Builder::new(Vec::new());
    builder.append_data(&mut header, name, contents).ok()?;
    builder.into_inner().ok()
}

/// Writes `data` through `flate2::write::GzEncoder` at the default level
/// and calls its `finish`. Trusted: the result is the named stream, and
/// `None` exactly where the crate reports an error.
#[verifier::external_body]
pub(crate) fn gzip(data: &[u8]) -> (r: Option<Vec<u8>>)
    ensures
        opt_bytes(r) == gzip_of(data@),
{
    let mut encoder = GzEncoder::new(Vec::new(), Compression::default());
    encoder.write_all(data).ok()?;
    encoder.finish().ok()
}

/// Calls `path_absolutize::Absolutize::absolutize`, which resolves `path`
/// against the process's working directory. Nothing is claimed of the
/// result: it depends on where the process runs.
#[verifier::external_body]
pub(crate) fn absolutize(path: &str) -> Option<String> {
    Path::new(path).absolutize().ok()?.to_str().map(str::to_owned)
}

} // verus!

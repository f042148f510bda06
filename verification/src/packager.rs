//! Packaging: from an artifact to its archive and its package description.

use vstd::prelude::*;
use vstd::string::StringExecFns;
use crate::archive::{absolutize, gzip, gzip_of, tar_of, tar_single_entry};
use crate::digest::{file_digest_string, is_hex_digest, sha256_hex};
use crate::error::{Error, ErrorView};
use crate::paths::{file_name, path_file_name};
use crate::plugin_manifest::{
    Architecture, Os, PackageView, PluginManifest, PluginPackage, arch_of_alias, os_of_alias,
};
use crate::settings::{PackagingSettings, manifest_of, manifest_path_of};
use crate::urls::{from_file_path, url_from_file_path};

verus! {

/// The name of the archive file of a plugin for one platform:
/// `{name}-{version}-{os}-{arch}.tar.gz`.
pub open spec fn archive_file_name(
    name: Seq<char>,
    version: Seq<char>,
    os: Seq<char>,
    arch: Seq<char>,
) -> Seq<char> {
    name + "-"@ + version + "-"@ + os + "-"@ + arch + ".tar.gz"@
}

/// Builds the name of the archive file.
pub fn archive_file_name_of(name: &str, version: &str, os: &str, arch: &str) -> (r: String)
    ensures
        r@ == archive_file_name(name@, version@, os@, arch@),
{
    let mut r: String = name.to_owned();
    r.append("-");
    r.append(version);
    r.append("-");
    r.append(os);
    r.append("-");
    r.append(arch);
    r.append(".tar.gz");
    r
}

/// An artifact as read from disk: where it was found, its bytes, and the
/// file metadata that its archive entry records.
#[derive(Clone, Debug, PartialEq, Eq)]
pub struct ArtifactFile {
    /// The resolved path of the artifact.
    pub path: String,
    /// The bytes of the artifact.
    pub contents: Vec<u8>,
    /// The file's permission bits.
    pub mode: u32,
    /// The file's modification time, in seconds since the epoch.
    pub mtime: u64,
    /// The file's owner.
    pub uid: u64,
    /// The file's group.
    pub gid: u64,
}

/// An archive ready to be written: its absolute path and its bytes.
#[derive(Clone, Debug, PartialEq, Eq)]
pub struct Archive {
    /// Where the archive file belongs.
    pub path: String,
    /// The bytes of the archive file.
    pub contents: Vec<u8>,
}

/// A package description together with the archive that it describes.
#[derive(Clone, Debug, PartialEq, Eq)]
pub struct Packaged {
    pub package: PluginPackage,
    pub archive: Archive,
}

/// What a single-platform run produces: the manifest, the path of the
/// manifest file, and the archive.
#[derive(Clone, Debug, PartialEq, Eq)]
pub struct LocalRun {
    pub manifest: PluginManifest,
    pub manifest_path: String,
    pub archive: Archive,
}

/// The bytes of the archive of `artifact`: the gzip stream of the tar
/// archive whose one entry is named by the artifact's base file name and
/// holds the artifact's bytes. `None` where the path has no file name or
/// the archive cannot be built.
pub open spec fn archive_contents(artifact: ArtifactFile) -> Option<Seq<u8>> {
    match path_file_name(artifact.path@) {
        None => None,
        Some(name) => match tar_of(
            name,
            artifact.contents@,
            artifact.mode,
            artifact.mtime,
            artifact.uid,
            artifact.gid,
        ) {
            None => None,
            Some(tar) => gzip_of(tar),
        },
    }
}

/// The package that describes the archive at `archive_path` with the bytes
/// `contents`, for the platform named by `os` and `arch`.
pub open spec fn package_of(
    archive_path: Seq<char>,
    contents: Seq<u8>,
    os: Seq<char>,
    arch: Seq<char>,
) -> Result<PackageView, ErrorView> {
    match url_from_file_path(archive_path) {
        None => Err(ErrorView::UrlResolutionError),
        Some(url) => match os_of_alias(os) {
            None => Err(ErrorView::UnknownPlatform(os)),
            Some(os_tag) => match arch_of_alias(arch) {
                None => Err(ErrorView::UnknownPlatform(arch)),
                Some(arch_tag) => Ok(
                    PackageView { os: os_tag, arch: arch_tag, url, sha256: sha256_hex(contents) },
                ),
            },
        },
    }
}

/// The view of the outcome of describing an archive.
pub open spec fn package_result(r: Result<PluginPackage, Error>) -> Result<PackageView, ErrorView> {
    match r {
        Ok(p) => Ok(p@),
        Err(e) => Err(e@),
    }
}

/// Whether `e` is an error that describing an archive for `os` and `arch`
/// can give.
pub open spec fn is_package_error(e: ErrorView, os: Seq<char>, arch: Seq<char>) -> bool {
    ||| e == ErrorView::UrlResolutionError
    ||| os_of_alias(os) is None && e == ErrorView::UnknownPlatform(os)
    ||| os_of_alias(os) is Some && arch_of_alias(arch) is None && e == ErrorView::UnknownPlatform(
        arch,
    )
}

/// Builds the bytes of the archive of `artifact`.
pub fn archive_artifact(artifact: &ArtifactFile) -> (r: Result<Vec<u8>, Error>)
    ensures
        match archive_contents(*artifact) {
            Some(bytes) => r matches Ok(v) && v@ == bytes,
            None => r matches Err(e) && e@ == ErrorView::ArchiveError,
        },
{
    let name = match file_name(artifact.path.as_str()) {
        Some(name) => name,
        None => { return Err(Error::ArchiveError); },
    };
    let tar = match tar_single_entry(
        name.as_str(),
        artifact.contents.as_slice(),
        artifact.mode,
        artifact.mtime,
        artifact.uid,
        artifact.gid,
    ) {
        Some(tar) => tar,
        None => { return Err(Error::ArchiveError); },
    };
    match gzip(tar.as_slice()) {
        Some(bytes) => Ok(bytes),
        None => Err(Error::ArchiveError),
    }
}

/// Builds the archive of `artifact` for the place `location`, which is the
/// absolute path of the archive file, or `None` where none could be found.
pub fn archive_at(location: Option<String>, artifact: &ArtifactFile) -> (r: Result<Archive, Error>)
    ensures
        match (location, archive_contents(*artifact)) {
            (Some(path), Some(bytes)) => r matches Ok(a) && a.path@ == path@ && a.contents@
                == bytes,
            _ => r matches Err(e) && e@ == ErrorView::ArchiveError,
        },
{
    let contents = match archive_artifact(artifact) {
        Ok(contents) => contents,
        Err(e) => { return Err(e); },
    };
    match location {
        Some(path) => Ok(Archive { path, contents }),
        None => Err(Error::ArchiveError),
    }
}

/// Builds the archive of `artifact`, named after the plugin and the
/// platform strings and placed in the working directory. Whether a place is
/// found depends on the process; whatever it is, the archive's bytes are
/// those of `archive_contents`.
pub fn tar_package_source(
    ps: &PackagingSettings,
    os: &str,
    arch: &str,
    artifact: &ArtifactFile,
) -> (r: Result<Archive, Error>)
    ensures
        r matches Ok(a) ==> archive_contents(*artifact) == Some(a.contents@),
        r matches Err(e) ==> e@ == ErrorView::ArchiveError,
        archive_contents(*artifact) is None ==> r is Err,
{
    let name = ps.plugin_name();
    let version = ps.plugin_version();
    let file = archive_file_name_of(name.as_str(), version.as_str(), os, arch);
    let location = absolutize(file.as_str());
    archive_at(location, artifact)
}

/// Describes `archive` as a package for the platform named by `os` and
/// `arch`: its digest, its local file URL, and the canonical platform tags.
pub fn describe_archive(archive: &Archive, os: &str, arch: &str) -> (r: Result<
    PluginPackage,
    Error,
>)
    ensures
        package_result(r) == package_of(archive.path@, archive.contents@, os@, arch@),
        r matches Ok(p) ==> is_hex_digest(p.sha256@),
{
    let sha256 = file_digest_string(archive.contents.as_slice());
    let url = match from_file_path(archive.path.as_str()) {
        Some(url) => url,
        None => { return Err(Error::UrlResolutionError); },
    };
    let os_tag = match Os::parse(os) {
        Ok(tag) => tag,
        Err(e) => { return Err(e); },
    };
    let arch_tag = match Architecture::parse(arch) {
        Ok(tag) => tag,
        Err(e) => { return Err(e); },
    };
    Ok(PluginPackage { os: os_tag, arch: arch_tag, url, sha256 })
}

/// Packages `artifact`: builds its archive and describes it. The archive's
/// bytes are those of `archive_contents`, and the package's digest is the
/// digest of exactly those bytes.
pub fn package(ps: &PackagingSettings, os: &str, arch: &str, artifact: &ArtifactFile) -> (r: Result<
    Packaged,
    Error,
>)
    ensures
        match r {
            Ok(p) => {
                &&& archive_contents(*artifact) == Some(p.archive.contents@)
                &&& package_of(p.archive.path@, p.archive.contents@, os@, arch@) == Ok::<
                    PackageView,
                    ErrorView,
                >(p.package@)
                &&& p.package@.sha256 == sha256_hex(p.archive.contents@)
                &&& is_hex_digest(p.package@.sha256)
            },
            Err(e) => e@ == ErrorView::ArchiveError || is_package_error(e@, os@, arch@),
        },
        archive_contents(*artifact) is None ==> (r matches Err(e) && e@ == ErrorView::ArchiveError),
        os_of_alias(os@) is None || arch_of_alias(arch@) is None ==> r is Err,
{
    let archive = match tar_package_source(ps, os, arch, artifact) {
        Ok(archive) => archive,
        Err(e) => { return Err(e); },
    };
    match describe_archive(&archive, os, arch) {
        Ok(package) => Ok(Packaged { package, archive }),
        Err(e) => Err(e),
    }
}

/// A single-platform run: packages `artifact` and assembles the manifest
/// of the plugin with that one package.
pub fn run_local(ps: &PackagingSettings, os: &str, arch: &str, artifact: &ArtifactFile) -> (r:
    Result<LocalRun, Error>)
    ensures
        match r {
            Ok(run) => {
                &&& archive_contents(*artifact) == Some(run.archive.contents@)
                &&& run.manifest_path@ == manifest_path_of(ps@.name)
                &&& run.manifest@ == manifest_of(ps@, run.manifest.packages@)
                &&& run.manifest.packages@.len() == 1
                &&& package_of(run.archive.path@, run.archive.contents@, os@, arch@) == Ok::<
                    PackageView,
                    ErrorView,
                >(run.manifest.packages@[0]@)
                &&& run.manifest.packages@[0]@.sha256 == sha256_hex(run.archive.contents@)
                &&& is_hex_digest(run.manifest.packages@[0]@.sha256)
            },
            Err(e) => e@ == ErrorView::ArchiveError || is_package_error(e@, os@, arch@),
        },
        archive_contents(*artifact) is None ==> (r matches Err(e) && e@ == ErrorView::ArchiveError),
        os_of_alias(os@) is None || arch_of_alias(arch@) is None ==> r is Err,
{
    let packaged = match package(ps, os, arch, artifact) {
        Ok(packaged) => packaged,
        Err(e) => { return Err(e); },
    };
    let mut packages: Vec<PluginPackage> = Vec::new();
    packages.push(packaged.package);
    let manifest = PluginManifest::new(ps, packages);
    let manifest_path = ps.manifest_path();
    Ok(LocalRun { manifest, manifest_path, archive: packaged.archive })
}

} // verus!

//! Merging single-platform manifests into one multi-platform manifest.

use vstd::prelude::*;
use crate::error::{Error, ErrorView};
use crate::paths::{extension, file_name, path_extension, path_file_name};
use crate::plugin_manifest::{ManifestView, PackageView, PluginManifest, PluginPackage};
use crate::text::str_eq;
use crate::urls::{join, url_join};

verus! {

/// The two files of a merge set: a manifest and the archive it refers to.
#[derive(Clone, Debug, PartialEq, Eq)]
pub struct MergeFiles {
    /// The path of the manifest file.
    pub manifest: String,
    /// The path of the archive file.
    pub tar: String,
}

/// A manifest that was read from a merge set, with the path of its archive.
#[derive(Clone, Debug, PartialEq, Eq)]
pub struct MergeInput {
    pub manifest: PluginManifest,
    pub tar: String,
}

/// What a `MergeInput` holds, as mathematical values.
pub struct MergeInputView {
    pub manifest: ManifestView,
    pub tar: Seq<char>,
}

impl View for MergeInput {
    type V = MergeInputView;

    open spec fn view(&self) -> MergeInputView {
        MergeInputView { manifest: self.manifest@, tar: self.tar@ }
    }
}

/// The views of a sequence of merge inputs, in the same order.
pub open spec fn inputs_view(inputs: Seq<MergeInput>) -> Seq<MergeInputView> {
    inputs.map_values(|i: MergeInput| i@)
}

/// Whether `path` carries the extension of an archive.
pub open spec fn is_archive_path(path: Seq<char>) -> bool {
    path_extension(path) == Some("gz"@)
}

/// Whether `path` carries the extension of a manifest.
pub open spec fn is_manifest_path(path: Seq<char>) -> bool {
    path_extension(path) == Some("json"@)
}

/// The merge set that the regular files of one directory form: there are
/// exactly two of them, one an archive and the other a manifest. The result
/// is the archive's path and the manifest's path.
pub open spec fn merge_set_of(files: Seq<String>) -> Option<(Seq<char>, Seq<char>)> {
    if files.len() != 2 {
        None
    } else if is_archive_path(files[0]@) && is_manifest_path(files[1]@) {
        Some((files[0]@, files[1]@))
    } else if is_archive_path(files[1]@) && is_manifest_path(files[0]@) {
        Some((files[1]@, files[0]@))
    } else {
        None
    }
}

/// Whether the extension of `path` is `wanted`.
fn has_extension(path: &str, wanted: &str) -> (r: bool)
    ensures
        r == (path_extension(path@) == Some(wanted@)),
{
    match extension(path) {
        Some(found) => str_eq(found.as_str(), wanted),
        None => false,
    }
}

/// Decides whether a directory is a merge set, from the paths of the
/// regular files in it. A directory that is none is passed over.
pub fn as_merge_set(files: &Vec<String>) -> (r: Option<MergeFiles>)
    ensures
        match merge_set_of(files@) {
            Some((tar, manifest)) => r matches Some(set) && set.tar@ == tar && set.manifest@
                == manifest,
            None => r is None,
        },
        files@.len() != 2 ==> r is None,
{
    if files.len() != 2 {
        return None;
    }
    let first = files[0].as_str();
    let second = files[1].as_str();
    if has_extension(first, "gz") && has_extension(second, "json") {
        Some(MergeFiles { manifest: second.to_owned(), tar: first.to_owned() })
    } else if has_extension(second, "gz") && has_extension(first, "json") {
        Some(MergeFiles { manifest: first.to_owned(), tar: second.to_owned() })
    } else {
        None
    }
}

/// What a `MergeFiles` holds: the archive's path and the manifest's path.
pub open spec fn merge_files_view(set: MergeFiles) -> (Seq<char>, Seq<char>) {
    (set.tar@, set.manifest@)
}

/// The merge sets among the directories whose regular files are listed in
/// `listings`, in the order of the directories. A directory that is no
/// merge set leaves no trace.
pub open spec fn discovered(listings: Seq<Vec<String>>) -> Seq<(Seq<char>, Seq<char>)>
    decreases listings.len(),
{
    if listings.len() == 0 {
        Seq::empty()
    } else {
        let before = discovered(listings.drop_last());
        match merge_set_of(listings.last()@) {
            Some(set) => before.push(set),
            None => before,
        }
    }
}

/// Picks the merge sets out of the directories of the working directory.
/// Each element of `listings` holds the paths of the regular files of one
/// directory.
pub fn discover_merge_sets(listings: &Vec<Vec<String>>) -> (r: Vec<MergeFiles>)
    ensures
        r@.map_values(|set: MergeFiles| merge_files_view(set)) == discovered(listings@),
{
    let mut found: Vec<MergeFiles> = Vec::new();
    let mut i: usize = 0;
    while i < listings.len()
        invariant
            0 <= i <= listings@.len(),
            found@.map_values(|set: MergeFiles| merge_files_view(set)) == discovered(
                listings@.subrange(0, i as int),
            ),
        decreases listings@.len() - i,
    {
        let ghost before = found@;
        assert(listings@.subrange(0, i + 1).drop_last() == listings@.subrange(0, i as int));
        match as_merge_set(&listings[i]) {
            Some(set) => {
                found.push(set);
                assert(found@.map_values(|set: MergeFiles| merge_files_view(set))
                    == before.map_values(|set: MergeFiles| merge_files_view(set)).push(
                    merge_files_view(set),
                ));
            },
            None => {},
        }
        i = i + 1;
    }
    assert(listings@.subrange(0, listings@.len() as int) == listings@);
    found
}

/// The public URL of the archive at `tar_path`: its file name resolved
/// against the release URL base.
pub open spec fn release_url(base: Seq<char>, tar_path: Seq<char>) -> Option<Seq<char>> {
    match path_file_name(tar_path) {
        None => None,
        Some(name) => url_join(base, name),
    }
}

/// The single-platform manifest `source` with the URL of its one package
/// rewritten to the release URL of its archive.
pub open spec fn releasified(source: ManifestView, tar_path: Seq<char>, base: Seq<char>) -> Result<
    ManifestView,
    ErrorView,
> {
    if source.packages.len() != 1 {
        Err(ErrorView::MergeParseError)
    } else {
        match release_url(base, tar_path) {
            None => Err(ErrorView::UrlResolutionError),
            Some(url) => Ok(
                ManifestView { packages: seq![PackageView { url, ..source.packages[0] }], ..source },
            ),
        }
    }
}

/// `dest` with the rewritten package of `source` appended.
pub open spec fn merged_info(
    dest: ManifestView,
    source: ManifestView,
    tar_path: Seq<char>,
    base: Seq<char>,
) -> Result<ManifestView, ErrorView> {
    match releasified(source, tar_path, base) {
        Err(e) => Err(e),
        Ok(m) => Ok(ManifestView { packages: dest.packages.push(m.packages[0]), ..dest }),
    }
}

/// The view of the outcome of a step that yields a manifest.
pub open spec fn manifest_result(r: Result<PluginManifest, Error>) -> Result<
    ManifestView,
    ErrorView,
> {
    match r {
        Ok(m) => Ok(m@),
        Err(e) => Err(e@),
    }
}

/// Rewrites the URL of the one package of `source` to the release URL of
/// the archive at `tar_path`. A manifest without exactly one package is
/// refused.
pub fn releasify_url(source: PluginManifest, tar_path: &str, release_url_base: &str) -> (r: Result<
    PluginManifest,
    Error,
>)
    ensures
        manifest_result(r) == releasified(source@, tar_path@, release_url_base@),
{
    let mut source = source;
    if source.packages.len() != 1 {
        return Err(Error::MergeParseError);
    }
    let tar_filename = match file_name(tar_path) {
        Some(name) => name,
        None => { return Err(Error::UrlResolutionError); },
    };
    let release_url = match join(release_url_base, tar_filename.as_str()) {
        Some(url) => url,
        None => { return Err(Error::UrlResolutionError); },
    };
    let ghost before = source@;
    let package = source.packages.pop().unwrap();
    let rewritten = PluginPackage {
        os: package.os,
        arch: package.arch,
        url: release_url,
        sha256: package.sha256,
    };
    source.packages.push(rewritten);
    assert(source@.packages =~= seq![PackageView { url: release_url@, ..before.packages[0] }]);
    Ok(source)
}

/// Appends the rewritten package of `source` to `dest`. The metadata of
/// `source` is read and dropped: only that of `dest` stays.
pub fn merge_info(
    dest: PluginManifest,
    source: PluginManifest,
    tar_path: &str,
    release_url_base: &str,
) -> (r: Result<PluginManifest, Error>)
    ensures
        manifest_result(r) == merged_info(dest@, source@, tar_path@, release_url_base@),
{
    let mut dest = dest;
    let mut releasified = match releasify_url(source, tar_path, release_url_base) {
        Ok(m) => m,
        Err(e) => { return Err(e); },
    };
    let ghost before = dest@;
    let ghost rewritten = releasified@.packages[0];
    assert(releasified@.packages.len() == 1);
    assert(releasified.packages@.len() == 1);
    let package = releasified.packages.pop().unwrap();
    assert(package@ == rewritten);
    dest.packages.push(package);
    assert(dest@.packages =~= before.packages.push(rewritten));
    Ok(dest)
}

/// Whether the manifest of `input` can be rewritten for release.
pub open spec fn is_releasable(input: MergeInputView, base: Seq<char>) -> bool {
    releasified(input.manifest, input.tar, base) is Ok
}

/// The one package of `input`, with its URL rewritten for release.
pub open spec fn released_package(input: MergeInputView, base: Seq<char>) -> PackageView
    recommends
        is_releasable(input, base),
{
    releasified(input.manifest, input.tar, base)->Ok_0.packages[0]
}

/// The manifest that the first `n` inputs merge into: the metadata of the
/// first input, and the rewritten package of each input in its place.
pub open spec fn merged_prefix(inputs: Seq<MergeInputView>, n: int, base: Seq<char>) -> ManifestView
    recommends
        0 < n <= inputs.len(),
{
    ManifestView {
        packages: Seq::new(n as nat, |i: int| released_package(inputs[i], base)),
        ..inputs[0].manifest
    }
}

/// The manifest that `inputs` merge into, where every one of them can be
/// rewritten for release.
pub open spec fn merged_manifest(inputs: Seq<MergeInputView>, base: Seq<char>) -> ManifestView
    recommends
        inputs.len() > 0,
{
    merged_prefix(inputs, inputs.len() as int, base)
}

/// Whether merging stops at input `k` with the error `e`: every input
/// before it can be rewritten, and rewriting this one gives `e`.
pub open spec fn merge_fails_at(
    inputs: Seq<MergeInputView>,
    base: Seq<char>,
    k: int,
    e: ErrorView,
) -> bool {
    &&& 0 <= k < inputs.len()
    &&& forall|j: int| 0 <= j < k ==> is_releasable(#[trigger] inputs[j], base)
    &&& releasified(inputs[k].manifest, inputs[k].tar, base) == Err::<ManifestView, ErrorView>(e)
}

/// Whether `outcome` is what merging `inputs` under `base` gives.
///
/// Without a base nothing is merged. Without inputs there is nothing to
/// merge. Else the inputs are taken in order: the first that cannot be
/// rewritten stops the merge with its error, and where there is none the
/// outcome is `merged_manifest`.
pub open spec fn is_merge_outcome(
    inputs: Seq<MergeInputView>,
    base: Option<Seq<char>>,
    outcome: Result<ManifestView, ErrorView>,
) -> bool {
    match base {
        None => outcome == Err::<ManifestView, ErrorView>(ErrorView::UrlResolutionError),
        Some(base) => if inputs.len() == 0 {
            outcome == Err::<ManifestView, ErrorView>(ErrorView::MergeDiscoveryError)
        } else {
            match outcome {
                Ok(m) => {
                    &&& forall|i: int|
                        0 <= i < inputs.len() ==> is_releasable(#[trigger] inputs[i], base)
                    &&& m == merged_manifest(inputs, base)
                },
                Err(e) => exists|k: int| merge_fails_at(inputs, base, k, e),
            }
        },
    }
}

/// The release URL base as characters, where one is given.
pub open spec fn base_text(base: Option<&str>) -> Option<Seq<char>> {
    match base {
        Some(b) => Some(b@),
        None => None,
    }
}

/// Merges the manifests of the merge sets, in the order given, into one
/// manifest whose packages point below the release URL base.
pub fn run_merge(inputs: Vec<MergeInput>, release_url_base: Option<&str>) -> (r: Result<
    PluginManifest,
    Error,
>)
    ensures
        is_merge_outcome(inputs_view(inputs@), base_text(release_url_base), manifest_result(r)),
        r matches Ok(m) ==> m.is_finalized() && m.packages@.len() == inputs@.len(),
        release_url_base is Some && inputs@.len() == 0 ==> (r matches Err(e) && e@
            == ErrorView::MergeDiscoveryError),
        (release_url_base matches Some(base) && inputs@.len() > 0 && forall|i: int|
            0 <= i < inputs@.len() ==> is_releasable(#[trigger] inputs_view(inputs@)[i], base@))
            ==> (r matches Ok(m) && m@ == merged_manifest(
            inputs_view(inputs@),
            release_url_base->Some_0@,
        )),
{
    let base = match release_url_base {
        Some(base) => base,
        None => { return Err(Error::UrlResolutionError); },
    };
    let ghost all = inputs_view(inputs@);
    let ghost mut done: int = 0;
    let mut pending = inputs;
    let mut merged: Option<PluginManifest> = None;
    while pending.len() > 0
        invariant
            all == inputs_view(inputs@),
            release_url_base == Some(base),
            0 <= done <= all.len(),
            pending@.len() == all.len() - done,
            forall|i: int| 0 <= i < pending@.len() ==> (#[trigger] pending@[i])@ == all[done + i],
            forall|j: int| 0 <= j < done ==> is_releasable(#[trigger] all[j], base@),
            done == 0 ==> merged is None,
            done > 0 ==> (merged matches Some(m) && m@ == merged_prefix(all, done, base@)
                && m.packages@.len() == done),
        decreases pending@.len(),
    {
        let ghost rest = pending@;
        let input = pending.remove(0);
        assert(input@ == all[done]);
        assert forall|i: int| 0 <= i < pending@.len() implies (#[trigger] pending@[i])@ == all[done
            + 1 + i] by {
            assert(pending@[i] == rest[i + 1]);
        }
        let step = match merged {
            None => releasify_url(input.manifest, input.tar.as_str(), base),
            Some(m) => {
                let next = merge_info(m, input.manifest, input.tar.as_str(), base);
                proof {
                    if next is Ok {
                        let n = next->Ok_0;
                        assert(n@.packages =~= merged_prefix(all, done + 1, base@).packages);
                        assert(n.packages@.len() == n@.packages.len());
                    }
                }
                next
            },
        };
        match step {
            Ok(m) => {
                proof {
                    if done == 0 {
                        assert(m@.packages =~= merged_prefix(all, 1, base@).packages);
                        assert(m.packages@.len() == m@.packages.len());
                    }
                }
                merged = Some(m);
            },
            Err(e) => {
                assert(merge_fails_at(all, base@, done, e@));
                return Err(e);
            },
        }
        proof {
            done = done + 1;
        }
    }
    match merged {
        Some(m) => Ok(m),
        None => Err(Error::MergeDiscoveryError),
    }
}

/// A merge keeps the order of discovery: where every input can be
/// rewritten, the merged manifest has one package per input, the package at
/// each place is the one package of the input at that place with its URL
/// set to the archive's file name resolved against the base, and the
/// metadata is that of the first input.
pub proof fn lemma_merge_keeps_discovery_order(inputs: Seq<MergeInputView>, base: Seq<char>)
    requires
        inputs.len() > 0,
        forall|i: int| 0 <= i < inputs.len() ==> is_releasable(#[trigger] inputs[i], base),
    ensures
        is_merge_outcome(
            inputs,
            Some(base),
            Ok::<ManifestView, ErrorView>(merged_manifest(inputs, base)),
        ),
        merged_manifest(inputs, base).packages.len() == inputs.len(),
        forall|i: int|
            #![trigger inputs[i]]
            0 <= i < inputs.len() ==> {
                &&& inputs[i].manifest.packages.len() == 1
                &&& release_url(base, inputs[i].tar) is Some
                &&& merged_manifest(inputs, base).packages[i] == (PackageView {
                    url: release_url(base, inputs[i].tar)->Some_0,
                    ..inputs[i].manifest.packages[0]
                })
            },
        merged_manifest(inputs, base) == (ManifestView {
            packages: merged_manifest(inputs, base).packages,
            ..inputs[0].manifest
        }),
{
    assert forall|i: int| #![trigger inputs[i]] 0 <= i < inputs.len() implies {
        &&& inputs[i].manifest.packages.len() == 1
        &&& release_url(base, inputs[i].tar) is Some
        &&& merged_manifest(inputs, base).packages[i] == (PackageView {
            url: release_url(base, inputs[i].tar)->Some_0,
            ..inputs[i].manifest.packages[0]
        })
    } by {
        assert(is_releasable(inputs[i], base));
    }
}

/// Merging has one outcome: two outcomes of the same inputs under the same
/// base are equal.
pub proof fn lemma_merge_outcome_is_unique(
    inputs: Seq<MergeInputView>,
    base: Option<Seq<char>>,
    first: Result<ManifestView, ErrorView>,
    second: Result<ManifestView, ErrorView>,
)
    requires
        is_merge_outcome(inputs, base, first),
        is_merge_outcome(inputs, base, second),
    ensures
        first == second,
{
    if base is Some && inputs.len() > 0 {
        let b = base->Some_0;
        match (first, second) {
            (Err(e1), Err(e2)) => {
                let k1 = choose|k: int| merge_fails_at(inputs, b, k, e1);
                let k2 = choose|k: int| merge_fails_at(inputs, b, k, e2);
                if k1 < k2 {
                    assert(is_releasable(inputs[k1], b));
                } else if k2 < k1 {
                    assert(is_releasable(inputs[k2], b));
                }
            },
            (Ok(_), Err(e)) => {
                let k = choose|k: int| merge_fails_at(inputs, b, k, e);
                assert(is_releasable(inputs[k], b));
            },
            (Err(e), Ok(_)) => {
                let k = choose|k: int| merge_fails_at(inputs, b, k, e);
                assert(is_releasable(inputs[k], b));
            },
            (Ok(_), Ok(_)) => {},
        }
    }
}

/// A directory that does not hold exactly two regular files is left out
/// of the merge sets entirely: discovery gives the same with and without it.
pub proof fn lemma_discovery_skips_other_directories(listings: Seq<Vec<String>>, k: int)
    requires
        0 <= k < listings.len(),
        listings[k]@.len() != 2,
    ensures
        discovered(listings) == discovered(listings.remove(k)),
    decreases listings.len(),
{
    if k == listings.len() - 1 {
        assert(listings.remove(k) == listings.drop_last());
    } else {
        lemma_discovery_skips_other_directories(listings.drop_last(), k);
        assert(listings.remove(k).drop_last() == listings.drop_last().remove(k));
        assert(listings.remove(k).last() == listings.last());
    }
}

} // verus!

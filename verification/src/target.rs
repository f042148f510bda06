//! The artifact that is packaged, and how its path is resolved.

use vstd::prelude::*;
use crate::error::Error;
use crate::paths::{is_plain_extension, path_with_extension, with_extension};
use crate::task::Task;

verus! {

/// The artifact path with the suffix that executables carry on some platforms.
pub open spec fn executable_variant_of(package: Seq<char>) -> Seq<char> {
    path_with_extension(package, "exe"@)
}

/// The path that packaging reads: the artifact path where it exists, else its
/// executable-suffixed variant where that exists, else none.
pub open spec fn inferred_package_path(
    package: Seq<char>,
    exists: bool,
    variant_exists: bool,
) -> Option<Seq<char>> {
    if exists {
        Some(package)
    } else if variant_exists {
        Some(executable_variant_of(package))
    } else {
        None
    }
}

/// The executable-suffixed variant of `package`.
pub fn executable_variant(package: &str) -> (r: String)
    ensures
        r@ == executable_variant_of(package@),
{
    proof {
        reveal_strlit("exe");
        assert(is_plain_extension("exe"@));
    }
    with_extension(package, "exe")
}

/// Resolves the artifact path. `exists` says whether `package` exists, and
/// `variant_exists` whether its executable-suffixed variant does.
pub fn infer_package_path(package: &str, exists: bool, variant_exists: bool) -> (r: Result<
    String,
    Error,
>)
    ensures
        match inferred_package_path(package@, exists, variant_exists) {
            Some(p) => r matches Ok(path) && path@ == p,
            None => r == Err::<String, Error>(Error::ArtifactNotFound),
        },
        !exists && variant_exists ==> (r matches Ok(path) && path@ == executable_variant_of(
            package@,
        )),
{
    if exists {
        Ok(package.to_owned())
    } else if variant_exists {
        Ok(executable_variant(package))
    } else {
        Err(Error::ArtifactNotFound)
    }
}

/// The artifact to package and an optional task that builds it.
#[derive(Clone, Debug, PartialEq, Eq)]
pub struct Target {
    package: String,
    build: Option<Task>,
}

impl Target {
    /// The artifact path, as characters.
    pub closed spec fn spec_package(&self) -> Seq<char> {
        self.package@
    }

    /// The build task, if there is one.
    pub closed spec fn spec_build(&self) -> Option<Task> {
        self.build
    }

    /// A target that packages the artifact at `package`.
    pub fn new(package: String, build: Option<Task>) -> (r: Target)
        ensures
            r.spec_package() == package@,
            r.spec_build() == build,
    {
        Target { package, build }
    }

    /// The artifact path as the settings give it.
    pub fn package(&self) -> (r: &str)
        ensures
            r@ == self.spec_package(),
    {
        self.package.as_str()
    }

    /// The task to run before packaging, if any.
    pub fn build(&self) -> (r: Option<&Task>)
        ensures
            r == match self.spec_build() {
                Some(t) => Some(&t),
                None => None,
            },
    {
        self.build.as_ref()
    }

    /// Resolves the artifact path; see the free function of the same name.
    pub fn infer_package_path(&self, exists: bool, variant_exists: bool) -> (r: Result<
        String,
        Error,
    >)
        ensures
            match inferred_package_path(self.spec_package(), exists, variant_exists) {
                Some(p) => r matches Ok(path) && path@ == p,
                None => r == Err::<String, Error>(Error::ArtifactNotFound),
            },
            !exists && variant_exists ==> (r matches Ok(path) && path@ == executable_variant_of(
                self.spec_package(),
            )),
    {
        infer_package_path(self.package(), exists, variant_exists)
    }
}

} // verus!

//! The plugin manifest and its platform tags.

use vstd::prelude::*;
use crate::error::{Error, ErrorView};
use crate::text::{opt_text, str_eq};

verus! {

/// The operating system that a package is built for.
#[derive(Clone, Copy, Debug, PartialEq, Eq, Structural)]
pub enum Os {
    Linux,
    Macos,
    Windows,
}

/// The processor architecture that a package is built for.
#[derive(Clone, Copy, Debug, PartialEq, Eq, Structural)]
pub enum Architecture {
    Amd64,
    Aarch64,
    Arm,
}

/// The alias table of operating systems: exact, case-sensitive matches.
pub open spec fn os_of_alias(s: Seq<char>) -> Option<Os> {
    if s == "linux"@ {
        Some(Os::Linux)
    } else if s == "macos"@ || s == "osx"@ {
        Some(Os::Macos)
    } else if s == "windows"@ || s == "win32"@ {
        Some(Os::Windows)
    } else {
        None
    }
}

/// The alias table of architectures: exact, case-sensitive matches.
pub open spec fn arch_of_alias(s: Seq<char>) -> Option<Architecture> {
    if s == "amd64"@ || s == "x86_64"@ {
        Some(Architecture::Amd64)
    } else if s == "aarch64"@ {
        Some(Architecture::Aarch64)
    } else if s == "arm"@ || s == "arm64"@ {
        Some(Architecture::Arm)
    } else {
        None
    }
}

impl Os {
    /// Maps an OS string to its tag; an unknown string is reported back.
    pub fn parse(src: &str) -> (r: Result<Os, Error>)
        ensures
            match os_of_alias(src@) {
                Some(os) => r == Ok::<Os, Error>(os),
                None => r matches Err(e) && e@ == ErrorView::UnknownPlatform(src@),
            },
    {
        if str_eq(src, "linux") {
            Ok(Os::Linux)
        } else if str_eq(src, "macos") || str_eq(src, "osx") {
            Ok(Os::Macos)
        } else if str_eq(src, "windows") || str_eq(src, "win32") {
            Ok(Os::Windows)
        } else {
            Err(Error::UnknownPlatform(src.to_owned()))
        }
    }
}

impl Architecture {
    /// Maps an architecture string to its tag; an unknown string is reported back.
    pub fn parse(src: &str) -> (r: Result<Architecture, Error>)
        ensures
            match arch_of_alias(src@) {
                Some(arch) => r == Ok::<Architecture, Error>(arch),
                None => r matches Err(e) && e@ == ErrorView::UnknownPlatform(src@),
            },
    {
        if str_eq(src, "amd64") || str_eq(src, "x86_64") {
            Ok(Architecture::Amd64)
        } else if str_eq(src, "aarch64") {
            Ok(Architecture::Aarch64)
        } else if str_eq(src, "arm") || str_eq(src, "arm64") {
            Ok(Architecture::Arm)
        } else {
            Err(Error::UnknownPlatform(src.to_owned()))
        }
    }
}

/// One platform-specific archive of a plugin.
#[derive(Clone, Debug, PartialEq, Eq)]
pub struct PluginPackage {
    /// The operating system the archive is for.
    pub os: Os,
    /// The architecture the archive is for.
    pub arch: Architecture,
    /// Where the archive is fetched from.
    pub url: String,
    /// The SHA-256 digest of the archive, in lowercase hex.
    pub sha256: String,
}

/// What a `PluginPackage` holds, as mathematical values.
pub struct PackageView {
    pub os: Os,
    pub arch: Architecture,
    pub url: Seq<char>,
    pub sha256: Seq<char>,
}

impl View for PluginPackage {
    type V = PackageView;

    open spec fn view(&self) -> PackageView {
        PackageView { os: self.os, arch: self.arch, url: self.url@, sha256: self.sha256@ }
    }
}

/// The views of a sequence of packages, in the same order.
pub open spec fn packages_view(packages: Seq<PluginPackage>) -> Seq<PackageView> {
    packages.map_values(|p: PluginPackage| p@)
}

/// A plugin's metadata and its platform-specific packages.
#[derive(Clone, Debug, PartialEq, Eq)]
pub struct PluginManifest {
    /// Name of the plugin.
    pub name: String,
    /// Optional description of the plugin.
    pub description: Option<String>,
    /// Optional address of the plugin producer's homepage.
    pub homepage: Option<String>,
    /// Version of the plugin.
    pub version: String,
    /// Versions of the host that the plugin is compatible with.
    pub spin_compatibility: String,
    /// License of the plugin.
    pub license: String,
    /// The packages, in the order in which their platforms were met.
    pub packages: Vec<PluginPackage>,
}

/// What a `PluginManifest` holds, as mathematical values.
pub struct ManifestView {
    pub name: Seq<char>,
    pub description: Option<Seq<char>>,
    pub homepage: Option<Seq<char>>,
    pub version: Seq<char>,
    pub spin_compatibility: Seq<char>,
    pub license: Seq<char>,
    pub packages: Seq<PackageView>,
}

impl View for PluginManifest {
    type V = ManifestView;

    open spec fn view(&self) -> ManifestView {
        ManifestView {
            name: self.name@,
            description: opt_text(self.description),
            homepage: opt_text(self.homepage),
            version: self.version@,
            spin_compatibility: self.spin_compatibility@,
            license: self.license@,
            packages: packages_view(self.packages@),
        }
    }
}

impl PluginManifest {
    /// A manifest is finalized once it names at least one package.
    pub open spec fn is_finalized(&self) -> bool {
        self.packages@.len() > 0
    }
}

} // verus!

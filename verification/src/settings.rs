//! The packaging settings of one run, and the manifest that is built from them.

use vstd::prelude::*;
use crate::error::Error;
use crate::paths::{is_plain_extension, path_with_extension, with_extension};
use crate::plugin_manifest::{ManifestView, PluginManifest, PluginPackage, packages_view};
use crate::target::{Target, executable_variant_of, inferred_package_path};
use crate::text::{clone_opt, opt_text};

verus! {

/// The identity of a plugin and the target that is packaged for it.
#[derive(Clone, Debug, PartialEq, Eq)]
pub struct PackagingSettings {
    name: String,
    version: String,
    homepage: Option<String>,
    description: Option<String>,
    spin_compatibility: String,
    license: String,
    target: Target,
}

/// What a `PackagingSettings` holds, as mathematical values.
pub struct SettingsView {
    pub name: Seq<char>,
    pub version: Seq<char>,
    pub homepage: Option<Seq<char>>,
    pub description: Option<Seq<char>>,
    pub spin_compatibility: Seq<char>,
    pub license: Seq<char>,
    pub target: Target,
}

impl View for PackagingSettings {
    type V = SettingsView;

    closed spec fn view(&self) -> SettingsView {
        SettingsView {
            name: self.name@,
            version: self.version@,
            homepage: opt_text(self.homepage),
            description: opt_text(self.description),
            spin_compatibility: self.spin_compatibility@,
            license: self.license@,
            target: self.target,
        }
    }
}

/// Where the manifest of the plugin called `name` is written.
pub open spec fn manifest_path_of(name: Seq<char>) -> Seq<char> {
    path_with_extension(name, "json"@)
}

/// The manifest that `settings` and `packages` make: the metadata of the
/// settings, and the packages as given.
pub open spec fn manifest_of(settings: SettingsView, packages: Seq<PluginPackage>) -> ManifestView {
    ManifestView {
        name: settings.name,
        description: settings.description,
        homepage: settings.homepage,
        version: settings.version,
        spin_compatibility: settings.spin_compatibility,
        license: settings.license,
        packages: packages_view(packages),
    }
}

impl PackagingSettings {
    /// Settings from their parts, as a settings file gives them.
    pub fn new(
        name: String,
        version: String,
        homepage: Option<String>,
        description: Option<String>,
        spin_compatibility: String,
        license: String,
        target: Target,
    ) -> (r: PackagingSettings)
        ensures
            r@ == (SettingsView {
                name: name@,
                version: version@,
                homepage: opt_text(homepage),
                description: opt_text(description),
                spin_compatibility: spin_compatibility@,
                license: license@,
                target,
            }),
    {
        PackagingSettings {
            name,
            version,
            homepage,
            description,
            spin_compatibility,
            license,
            target,
        }
    }

    /// The plugin's name.
    pub fn plugin_name(&self) -> (r: String)
        ensures
            r@ == self@.name,
    {
        self.name.clone()
    }

    /// The homepage of the plugin's producer, if given.
    pub fn plugin_homepage(&self) -> (r: Option<String>)
        ensures
            opt_text(r) == self@.homepage,
    {
        clone_opt(&self.homepage)
    }

    /// The plugin's description, if given.
    pub fn plugin_description(&self) -> (r: Option<String>)
        ensures
            opt_text(r) == self@.description,
    {
        clone_opt(&self.description)
    }

    /// The plugin's version.
    pub fn plugin_version(&self) -> (r: String)
        ensures
            r@ == self@.version,
    {
        self.version.clone()
    }

    /// The host versions that the plugin is compatible with.
    pub fn plugin_spin_compatibility(&self) -> (r: String)
        ensures
            r@ == self@.spin_compatibility,
    {
        self.spin_compatibility.clone()
    }

    /// The plugin's license.
    pub fn plugin_license(&self) -> (r: String)
        ensures
            r@ == self@.license,
    {
        self.license.clone()
    }

    /// The target that is packaged.
    pub fn target(&self) -> (r: &Target)
        ensures
            *r == self@.target,
    {
        &self.target
    }

    /// The path of the manifest file: the plugin's name with the extension `json`.
    pub fn manifest_path(&self) -> (r: String)
        ensures
            r@ == manifest_path_of(self@.name),
    {
        proof {
            reveal_strlit("json");
            assert(is_plain_extension("json"@));
        }
        with_extension(self.name.as_str(), "json")
    }

    /// Resolves the target's artifact path. `exists` says whether the path
    /// exists, and `variant_exists` whether its executable-suffixed variant does.
    pub fn infer_package_path(&self, exists: bool, variant_exists: bool) -> (r: Result<
        String,
        Error,
    >)
        ensures
            match inferred_package_path(self@.target.spec_package(), exists, variant_exists) {
                Some(p) => r matches Ok(path) && path@ == p,
                None => r == Err::<String, Error>(Error::ArtifactNotFound),
            },
            !exists && variant_exists ==> (r matches Ok(path) && path@ == executable_variant_of(
                self@.target.spec_package(),
            )),
    {
        self.target.infer_package_path(exists, variant_exists)
    }
}

impl PluginManifest {
    /// Assembles a manifest: the metadata is copied from `settings`, and the
    /// packages are `packages` in their order. Nothing is validated.
    pub fn new(settings: &PackagingSettings, packages: Vec<PluginPackage>) -> (r: PluginManifest)
        ensures
            r@ == manifest_of(settings@, packages@),
            r.packages == packages,
    {
        PluginManifest {
            name: settings.plugin_name(),
            description: settings.plugin_description(),
            homepage: settings.plugin_homepage(),
            version: settings.plugin_version(),
            spin_compatibility: settings.plugin_spin_compatibility(),
            license: settings.plugin_license(),
            packages,
        }
    }
}

} // verus!

use pluginify::error::Error;
use pluginify::merge::{
    as_merge_set, discover_merge_sets, merge_info, releasify_url, run_merge, MergeFiles, MergeInput,
};
use pluginify::plugin_manifest::{Architecture, Os, PluginManifest, PluginPackage};

const BASE: &str = "https://github.com/example/js2wasm/releases/download/v0.3.0/";

fn paths(names: &[&str]) -> Vec<String> {
    names.iter().map(|n| n.to_string()).collect()
}

fn package(os: Os, arch: Architecture, url: &str, sha256: &str) -> PluginPackage {
    PluginPackage { os, arch, url: url.to_string(), sha256: sha256.to_string() }
}

fn manifest(name: &str, packages: Vec<PluginPackage>) -> PluginManifest {
    PluginManifest {
        name: name.to_string(),
        description: Some("Turns scripts into modules".to_string()),
        homepage: None,
        version: "0.3.0".to_string(),
        spin_compatibility: ">=1.0".to_string(),
        license: "Apache-2.0".to_string(),
        packages,
    }
}

fn linux() -> PluginManifest {
    manifest(
        "js2wasm",
        vec![package(
            Os::Linux,
            Architecture::Amd64,
            "file:///build/js2wasm-0.3.0-linux-amd64.tar.gz",
            "1111111111111111111111111111111111111111111111111111111111111111",
        )],
    )
}

fn macos() -> PluginManifest {
    manifest(
        "js2wasm",
        vec![package(
            Os::Macos,
            Architecture::Aarch64,
            "file:///Users/ci/js2wasm-0.3.0-macos-aarch64.tar.gz",
            "2222222222222222222222222222222222222222222222222222222222222222",
        )],
    )
}

fn input(manifest: PluginManifest, tar: &str) -> MergeInput {
    MergeInput { manifest, tar: tar.to_string() }
}

#[test]
fn archive_and_manifest_form_a_merge_set() {
    assert_eq!(
        as_merge_set(&paths(&["./linux/p.tar.gz", "./linux/p.json"])),
        Some(MergeFiles {
            manifest: "./linux/p.json".to_string(),
            tar: "./linux/p.tar.gz".to_string(),
        })
    );
}

#[test]
fn merge_set_does_not_depend_on_the_order_of_its_files() {
    assert_eq!(
        as_merge_set(&paths(&["./linux/p.json", "./linux/p.tar.gz"])),
        Some(MergeFiles {
            manifest: "./linux/p.json".to_string(),
            tar: "./linux/p.tar.gz".to_string(),
        })
    );
}

#[test]
fn directory_with_three_files_is_no_merge_set() {
    assert_eq!(as_merge_set(&paths(&["d/p.tar.gz", "d/p.json", "d/README.md"])), None);
    assert_eq!(as_merge_set(&paths(&["d/extra", "d/p.tar.gz", "d/p.json"])), None);
}

#[test]
fn directory_with_fewer_than_two_files_is_no_merge_set() {
    assert_eq!(as_merge_set(&Vec::new()), None);
    assert_eq!(as_merge_set(&paths(&["d/p.tar.gz"])), None);
    assert_eq!(as_merge_set(&paths(&["d/p.json"])), None);
}

#[test]
fn two_files_of_the_wrong_kinds_are_no_merge_set() {
    assert_eq!(as_merge_set(&paths(&["d/a.tar.gz", "d/b.tar.gz"])), None);
    assert_eq!(as_merge_set(&paths(&["d/a.json", "d/b.json"])), None);
    assert_eq!(as_merge_set(&paths(&["d/a.tar.gz", "d/b.txt"])), None);
    assert_eq!(as_merge_set(&paths(&["d/a.zip", "d/b.json"])), None);
    assert_eq!(as_merge_set(&paths(&["d/gz", "d/json"])), None);
    assert_eq!(as_merge_set(&paths(&["d/a.GZ", "d/b.json"])), None);
}

#[test]
fn extension_is_read_from_the_file_name_only() {
    assert_eq!(as_merge_set(&paths(&["d.gz/a", "d.json/b"])), None);
    assert_eq!(as_merge_set(&paths(&["d/.gz", "d/.json"])), None);
}

#[test]
fn releasify_rewrites_the_url_to_the_file_name_below_the_base() {
    let rewritten = releasify_url(linux(), "./linux/js2wasm-0.3.0-linux-amd64.tar.gz", BASE);
    let mut expected = linux();
    expected.packages[0].url =
        "https://github.com/example/js2wasm/releases/download/v0.3.0/js2wasm-0.3.0-linux-amd64.tar.gz"
            .to_string();
    assert_eq!(rewritten, Ok(expected));
}

#[test]
fn releasify_follows_the_rules_for_a_base_without_trailing_slash() {
    let rewritten = releasify_url(linux(), "p.tar.gz", "https://example.net/a/b.html").unwrap();
    assert_eq!(rewritten.packages[0].url, "https://example.net/a/p.tar.gz");
    let rewritten = releasify_url(linux(), "p.tar.gz", "https://example.net/a/b/").unwrap();
    assert_eq!(rewritten.packages[0].url, "https://example.net/a/b/p.tar.gz");
}

#[test]
fn releasify_keeps_everything_but_the_url() {
    let rewritten = releasify_url(macos(), "/tmp/x.tar.gz", BASE).unwrap();
    let before = macos();
    assert_eq!(rewritten.name, before.name);
    assert_eq!(rewritten.description, before.description);
    assert_eq!(rewritten.homepage, before.homepage);
    assert_eq!(rewritten.version, before.version);
    assert_eq!(rewritten.spin_compatibility, before.spin_compatibility);
    assert_eq!(rewritten.license, before.license);
    assert_eq!(rewritten.packages.len(), 1);
    assert_eq!(rewritten.packages[0].os, Os::Macos);
    assert_eq!(rewritten.packages[0].arch, Architecture::Aarch64);
    assert_eq!(rewritten.packages[0].sha256, before.packages[0].sha256);
    assert_ne!(rewritten.packages[0].url, before.packages[0].url);
}

#[test]
fn releasify_refuses_a_manifest_without_packages() {
    assert_eq!(
        releasify_url(manifest("p", Vec::new()), "p.tar.gz", BASE),
        Err(Error::MergeParseError)
    );
}

#[test]
fn releasify_refuses_a_manifest_with_several_packages() {
    let two = manifest("p", vec![linux().packages.remove(0), macos().packages.remove(0)]);
    assert_eq!(releasify_url(two, "p.tar.gz", BASE), Err(Error::MergeParseError));
}

#[test]
fn releasify_refuses_an_archive_path_without_a_file_name() {
    assert_eq!(releasify_url(linux(), "..", BASE), Err(Error::UrlResolutionError));
    assert_eq!(releasify_url(linux(), "/", BASE), Err(Error::UrlResolutionError));
}

#[test]
fn releasify_refuses_a_base_that_is_no_url() {
    assert_eq!(releasify_url(linux(), "p.tar.gz", "not a url"), Err(Error::UrlResolutionError));
    assert_eq!(releasify_url(linux(), "p.tar.gz", ""), Err(Error::UrlResolutionError));
}

#[test]
fn merge_info_appends_the_rewritten_package() {
    let dest = releasify_url(linux(), "js2wasm-0.3.0-linux-amd64.tar.gz", BASE).unwrap();
    let merged = merge_info(dest.clone(), macos(), "mac/js2wasm-0.3.0-macos-aarch64.tar.gz", BASE)
        .unwrap();
    assert_eq!(merged.packages.len(), 2);
    assert_eq!(merged.packages[0], dest.packages[0]);
    assert_eq!(
        merged.packages[1],
        package(
            Os::Macos,
            Architecture::Aarch64,
            "https://github.com/example/js2wasm/releases/download/v0.3.0/js2wasm-0.3.0-macos-aarch64.tar.gz",
            "2222222222222222222222222222222222222222222222222222222222222222",
        )
    );
}

#[test]
fn merge_info_keeps_the_metadata_of_the_destination() {
    let mut other = macos();
    other.name = "something-else".to_string();
    other.version = "9.9.9".to_string();
    other.license = "MIT".to_string();
    other.description = None;
    other.homepage = Some("https://elsewhere.example".to_string());
    other.spin_compatibility = "<1.0".to_string();
    let dest = releasify_url(linux(), "l.tar.gz", BASE).unwrap();
    let merged = merge_info(dest.clone(), other, "m.tar.gz", BASE).unwrap();
    assert_eq!(merged.name, dest.name);
    assert_eq!(merged.version, dest.version);
    assert_eq!(merged.license, dest.license);
    assert_eq!(merged.description, dest.description);
    assert_eq!(merged.homepage, dest.homepage);
    assert_eq!(merged.spin_compatibility, dest.spin_compatibility);
}

#[test]
fn merge_info_fails_as_releasify_fails() {
    let dest = releasify_url(linux(), "l.tar.gz", BASE).unwrap();
    assert_eq!(
        merge_info(dest.clone(), manifest("p", Vec::new()), "m.tar.gz", BASE),
        Err(Error::MergeParseError)
    );
    assert_eq!(merge_info(dest, macos(), "..", BASE), Err(Error::UrlResolutionError));
}

#[test]
fn merging_two_manifests_gives_two_packages_in_discovery_order() {
    let merged = run_merge(
        vec![
            input(linux(), "./linux/js2wasm-0.3.0-linux-amd64.tar.gz"),
            input(macos(), "./macos/js2wasm-0.3.0-macos-aarch64.tar.gz"),
        ],
        Some(BASE),
    )
    .unwrap();
    assert_eq!(merged.name, "js2wasm");
    assert_eq!(merged.version, "0.3.0");
    assert_eq!(merged.license, "Apache-2.0");
    assert_eq!(merged.packages.len(), 2);
    assert_eq!(
        merged.packages[0],
        package(
            Os::Linux,
            Architecture::Amd64,
            "https://github.com/example/js2wasm/releases/download/v0.3.0/js2wasm-0.3.0-linux-amd64.tar.gz",
            "1111111111111111111111111111111111111111111111111111111111111111",
        )
    );
    assert_eq!(
        merged.packages[1],
        package(
            Os::Macos,
            Architecture::Aarch64,
            "https://github.com/example/js2wasm/releases/download/v0.3.0/js2wasm-0.3.0-macos-aarch64.tar.gz",
            "2222222222222222222222222222222222222222222222222222222222222222",
        )
    );
}

#[test]
fn merging_in_the_other_order_gives_the_other_order() {
    let merged = run_merge(
        vec![input(macos(), "m.tar.gz"), input(linux(), "l.tar.gz")],
        Some(BASE),
    )
    .unwrap();
    assert_eq!(merged.packages.len(), 2);
    assert_eq!(merged.packages[0].os, Os::Macos);
    assert_eq!(merged.packages[1].os, Os::Linux);
    assert!(merged.packages[0].url.ends_with("/m.tar.gz"));
    assert!(merged.packages[1].url.ends_with("/l.tar.gz"));
}

#[test]
fn merging_one_manifest_gives_it_back_with_its_url_rewritten() {
    let merged = run_merge(vec![input(linux(), "l.tar.gz")], Some(BASE)).unwrap();
    assert_eq!(merged, releasify_url(linux(), "l.tar.gz", BASE).unwrap());
}

#[test]
fn merging_three_manifests_keeps_the_metadata_of_the_first() {
    let mut third = manifest(
        "other",
        vec![package(Os::Windows, Architecture::Amd64, "file:///w.tar.gz", "33")],
    );
    third.license = "MIT".to_string();
    let merged = run_merge(
        vec![input(linux(), "l.tar.gz"), input(macos(), "m.tar.gz"), input(third, "w.tar.gz")],
        Some(BASE),
    )
    .unwrap();
    assert_eq!(merged.name, "js2wasm");
    assert_eq!(merged.license, "Apache-2.0");
    assert_eq!(merged.packages.len(), 3);
    assert_eq!(merged.packages[2].os, Os::Windows);
    assert_eq!(merged.packages[2].sha256, "33");
    assert!(merged.packages[2].url.ends_with("/v0.3.0/w.tar.gz"));
}

#[test]
fn merging_nothing_fails_with_nothing_to_merge() {
    assert_eq!(run_merge(Vec::new(), Some(BASE)), Err(Error::MergeDiscoveryError));
}

#[test]
fn merging_without_a_base_fails_before_anything_is_merged() {
    assert_eq!(run_merge(Vec::new(), None), Err(Error::UrlResolutionError));
    assert_eq!(
        run_merge(vec![input(linux(), "l.tar.gz")], None),
        Err(Error::UrlResolutionError)
    );
}

#[test]
fn merge_stops_at_the_first_input_that_cannot_be_rewritten() {
    assert_eq!(
        run_merge(
            vec![
                input(linux(), "l.tar.gz"),
                input(manifest("p", Vec::new()), "p.tar.gz"),
                input(macos(), ".."),
            ],
            Some(BASE),
        ),
        Err(Error::MergeParseError)
    );
    assert_eq!(
        run_merge(
            vec![
                input(linux(), ".."),
                input(manifest("p", Vec::new()), "p.tar.gz"),
            ],
            Some(BASE),
        ),
        Err(Error::UrlResolutionError)
    );
}

#[test]
fn merge_with_a_base_that_is_no_url_fails() {
    assert_eq!(
        run_merge(vec![input(linux(), "l.tar.gz")], Some("::nonsense::")),
        Err(Error::UrlResolutionError)
    );
}

#[test]
fn discovery_keeps_the_merge_sets_in_the_order_of_the_directories() {
    let listings = vec![
        paths(&["./macos/p.json", "./macos/p-macos.tar.gz"]),
        paths(&["./notes/todo.txt"]),
        paths(&["./linux/p-linux.tar.gz", "./linux/p.json"]),
    ];
    assert_eq!(
        discover_merge_sets(&listings),
        vec![
            MergeFiles {
                manifest: "./macos/p.json".to_string(),
                tar: "./macos/p-macos.tar.gz".to_string(),
            },
            MergeFiles {
                manifest: "./linux/p.json".to_string(),
                tar: "./linux/p-linux.tar.gz".to_string(),
            },
        ]
    );
}

#[test]
fn discovery_leaves_out_a_directory_with_three_files() {
    let with_extra = vec![
        paths(&["./linux/p.tar.gz", "./linux/p.json"]),
        paths(&["./win/p.tar.gz", "./win/p.json", "./win/extra.log"]),
    ];
    let without = vec![paths(&["./linux/p.tar.gz", "./linux/p.json"])];
    assert_eq!(discover_merge_sets(&with_extra), discover_merge_sets(&without));
    assert_eq!(discover_merge_sets(&with_extra).len(), 1);
}

#[test]
fn discovery_of_nothing_finds_nothing() {
    assert_eq!(discover_merge_sets(&Vec::new()), Vec::new());
    assert_eq!(discover_merge_sets(&vec![Vec::new(), paths(&["a.txt"])]), Vec::new());
}

use snapshot_mirror::catalog::{RepoDefinition, RepoMap};
use snapshot_mirror::resolve::{resolve, Resolution};

fn updates_definition() -> RepoDefinition {
    RepoDefinition {
        repo: String::from("updates"),
        arch: String::from("x86_64"),
        platform: String::from("fedora"),
        base_url: String::from("https://mirror.example.org/fedora/updates"),
        snapshots: vec![
            (
                String::from("2024-01-01"),
                String::from("https://cdn.example.org/fedora-updates-x86_64/2024-01-01/"),
            ),
            (
                String::from("2024-02-01"),
                String::from("https://cdn.example.org/fedora-updates-x86_64/2024-02-01/"),
            ),
        ],
        latest_snapshot: String::from("2024-02-01"),
    }
}

fn sample_catalog() -> RepoMap {
    let mut catalog = RepoMap::new();
    assert!(catalog.insert(updates_definition()));
    catalog
}

#[test]
fn repomd_path_served_locally() {
    let catalog = sample_catalog();
    let r = resolve(
        &catalog,
        "fedora",
        "updates",
        "x86_64",
        "2024-01-01",
        "/repodata/repomd.xml",
    );
    assert_eq!(
        r,
        Resolution::ServeLocalMetadata {
            repo_name: String::from("fedora-updates-x86_64"),
            snapshot: String::from("2024-01-01"),
        }
    );
}

#[test]
fn repomd_path_never_redirected_even_with_known_snapshot() {
    // The snapshot label exists in the map, so a redirect target would be
    // available; the literal metadata path still takes precedence.
    let catalog = sample_catalog();
    let r = resolve(
        &catalog,
        "fedora",
        "updates",
        "x86_64",
        "2024-02-01",
        "/repodata/repomd.xml",
    );
    match r {
        Resolution::ServeLocalMetadata { .. } => {}
        other => panic!("expected local metadata, got {:?}", other),
    }
}

#[test]
fn repo_file_path_generates_config() {
    let catalog = sample_catalog();
    let r = resolve(
        &catalog,
        "fedora",
        "updates",
        "x86_64",
        "2024-01-01",
        "/fedora-updates-x86_64.repo",
    );
    assert_eq!(
        r,
        Resolution::GenerateConfig {
            platform: String::from("fedora"),
            repo_name: String::from("fedora-updates-x86_64"),
            arch: String::from("x86_64"),
            snapshot: String::from("2024-01-01"),
        }
    );
}

#[test]
fn generic_path_redirects_to_snapshot_url() {
    let catalog = sample_catalog();
    let r = resolve(
        &catalog,
        "fedora",
        "updates",
        "x86_64",
        "2024-01-01",
        "/pkgs/foo.rpm",
    );
    assert_eq!(
        r,
        Resolution::Redirect {
            url: String::from(
                "https://cdn.example.org/fedora-updates-x86_64/2024-01-01/pkgs/foo.rpm"
            ),
        }
    );
}

#[test]
fn root_path_redirects_to_bare_snapshot_url() {
    let catalog = sample_catalog();
    let r = resolve(&catalog, "fedora", "updates", "x86_64", "2024-02-01", "/");
    assert_eq!(
        r,
        Resolution::Redirect {
            url: String::from("https://cdn.example.org/fedora-updates-x86_64/2024-02-01/"),
        }
    );
}

#[test]
fn unknown_repository_is_not_found() {
    let catalog = sample_catalog();
    for path in ["/repodata/repomd.xml", "/debian-main-amd64.repo", "/pkgs/foo.rpm"] {
        let r = resolve(&catalog, "debian", "main", "amd64", "2024-01-01", path);
        assert_eq!(r, Resolution::NotFound);
    }
}

#[test]
fn unknown_snapshot_on_generic_path_is_not_found() {
    let catalog = sample_catalog();
    let r = resolve(
        &catalog,
        "fedora",
        "updates",
        "x86_64",
        "1999-12-31",
        "/pkgs/foo.rpm",
    );
    assert_eq!(r, Resolution::NotFound);
}

#[test]
fn unknown_snapshot_still_serves_repomd_and_config() {
    // The two special paths never consult the snapshot map.
    let catalog = sample_catalog();
    let served = resolve(
        &catalog,
        "fedora",
        "updates",
        "x86_64",
        "1999-12-31",
        "/repodata/repomd.xml",
    );
    match served {
        Resolution::ServeLocalMetadata { .. } => {}
        other => panic!("expected local metadata, got {:?}", other),
    }
    let generated = resolve(
        &catalog,
        "fedora",
        "updates",
        "x86_64",
        "1999-12-31",
        "/fedora-updates-x86_64.repo",
    );
    match generated {
        Resolution::GenerateConfig { .. } => {}
        other => panic!("expected generated config, got {:?}", other),
    }
}

#[test]
fn empty_catalog_resolves_nothing() {
    let catalog = RepoMap::new();
    let r = resolve(
        &catalog,
        "fedora",
        "updates",
        "x86_64",
        "2024-01-01",
        "/repodata/repomd.xml",
    );
    assert_eq!(r, Resolution::NotFound);
}

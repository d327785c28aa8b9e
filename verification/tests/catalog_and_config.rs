use snapshot_mirror::catalog::{compose_repo_name, RepoDefinition, RepoMap};
use snapshot_mirror::config::{generate_repo_file, repomd_file_path};
use snapshot_mirror::health;

fn definition(platform: &str, repo: &str, arch: &str) -> RepoDefinition {
    RepoDefinition {
        repo: String::from(repo),
        arch: String::from(arch),
        platform: String::from(platform),
        base_url: String::from("https://mirror.example.org/"),
        snapshots: vec![(
            String::from("snap-1"),
            String::from("https://cdn.example.org/snap-1/"),
        )],
        latest_snapshot: String::from("snap-1"),
    }
}

#[test]
fn composed_name_joins_fields_with_dashes() {
    assert_eq!(
        compose_repo_name("fedora", "updates", "x86_64"),
        "fedora-updates-x86_64"
    );
}

#[test]
fn lookup_finds_inserted_definition() {
    let mut catalog = RepoMap::new();
    assert!(catalog.insert(definition("fedora", "updates", "x86_64")));
    let found = catalog
        .lookup_by_name("fedora-updates-x86_64")
        .expect("definition should be present");
    assert_eq!(found.platform, "fedora");
    assert_eq!(found.repo, "updates");
    assert_eq!(found.arch, "x86_64");
    assert_eq!(found.latest_snapshot, "snap-1");
    assert_eq!(found.snapshots.len(), 1);
    assert_eq!(found.snapshots[0].0, "snap-1");
    assert_eq!(found.snapshots[0].1, "https://cdn.example.org/snap-1/");
}

#[test]
fn lookup_misses_absent_name() {
    let mut catalog = RepoMap::new();
    assert!(catalog.insert(definition("fedora", "updates", "x86_64")));
    assert!(catalog.lookup_by_name("fedora-updates-aarch64").is_none());
}

#[test]
fn duplicate_composed_name_is_rejected() {
    let mut catalog = RepoMap::new();
    assert!(catalog.insert(definition("fedora", "updates", "x86_64")));
    assert!(!catalog.insert(definition("fedora", "updates", "x86_64")));
    assert!(catalog.lookup_by_name("fedora-updates-x86_64").is_some());
}

#[test]
fn duplicate_snapshot_labels_are_rejected() {
    let mut catalog = RepoMap::new();
    let mut def = definition("fedora", "updates", "x86_64");
    def.snapshots.push((
        String::from("snap-1"),
        String::from("https://cdn.example.org/other/"),
    ));
    assert!(!catalog.insert(def));
    assert!(catalog.lookup_by_name("fedora-updates-x86_64").is_none());
}

#[test]
fn snapshot_url_lookup() {
    let def = definition("fedora", "updates", "x86_64");
    assert_eq!(
        def.snapshot_url("snap-1"),
        Some(&String::from("https://cdn.example.org/snap-1/"))
    );
    assert_eq!(def.snapshot_url("snap-2"), None);
}

#[test]
fn generated_config_has_exact_template() {
    let text = generate_repo_file("fedora", "fedora-updates-x86_64", "x86_64", "2024-01-01");
    let expected = "[fedora-updates-x86_64]\n\
                    name=fedora-updates-x86_64\n\
                    enabled=1\n\
                    baseurl=http://localhost:3779/fedora/fedora-updates-x86_64/x86_64/2024-01-01/\n\
                    gpgcheck=1\n\
                    repo_gpgcheck=0";
    assert_eq!(text, expected);
}

#[test]
fn generated_config_is_deterministic() {
    let a = generate_repo_file("fedora", "fedora-updates-x86_64", "x86_64", "2024-01-01");
    let b = generate_repo_file("fedora", "fedora-updates-x86_64", "x86_64", "2024-01-01");
    assert_eq!(a, b);
    assert_eq!(a.as_bytes(), b.as_bytes());
}

#[test]
fn repomd_file_path_is_deterministic_location() {
    assert_eq!(
        repomd_file_path("fedora-updates-x86_64", "2024-01-01"),
        "snapshots/fedora-updates-x86_64/2024-01-01/repomd.xml"
    );
}

#[test]
fn health_always_succeeds() {
    assert!(health());
    assert!(health());
}

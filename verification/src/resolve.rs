//! Request resolution: from the five path fields and the catalog to one of
//! four outcomes — serve the local metadata file, generate a configuration
//! file, redirect to the snapshot's storage location, or not-found.

use vstd::prelude::*;

use crate::catalog::{assoc_lookup, compose_repo_name, composed_name, RepoDefModel, RepoMap};
use crate::config::config_text;
use crate::strings::{has_substring, lemma_substring_at, str_eq};

verus! {

broadcast use vstd::string::group_string_axioms;

/// The resolution outcome, carried back to the transport layer.
#[derive(Debug, PartialEq, Eq)]
pub enum Resolution {
    /// Serve the repository's metadata file from local disk.
    ServeLocalMetadata { repo_name: String, snapshot: String },
    /// Answer with a generated client configuration file.
    GenerateConfig { platform: String, repo_name: String, arch: String, snapshot: String },
    /// Instruct the client to re-request at the snapshot's true location.
    Redirect { url: String },
    /// Unknown repository, or unknown snapshot label for a generic file.
    NotFound,
}

/// The mathematical shape of a resolution outcome.
pub enum ResolutionModel {
    ServeLocalMetadata { repo_name: Seq<char>, snapshot: Seq<char> },
    GenerateConfig {
        platform: Seq<char>,
        repo_name: Seq<char>,
        arch: Seq<char>,
        snapshot: Seq<char>,
    },
    Redirect { url: Seq<char> },
    NotFound,
}

impl View for Resolution {
    type V = ResolutionModel;

    open spec fn view(&self) -> ResolutionModel {
        match self {
            Resolution::ServeLocalMetadata { repo_name, snapshot } => (
            ResolutionModel::ServeLocalMetadata { repo_name: repo_name@, snapshot: snapshot@ }),
            Resolution::GenerateConfig { platform, repo_name, arch, snapshot } => (
            ResolutionModel::GenerateConfig {
                platform: platform@,
                repo_name: repo_name@,
                arch: arch@,
                snapshot: snapshot@,
            }),
            Resolution::Redirect { url } => ResolutionModel::Redirect { url: url@ },
            Resolution::NotFound => ResolutionModel::NotFound,
        }
    }
}

/// What resolution returns, as a function of the catalog and the five
/// request fields. Rules, in priority order: unknown composite name is
/// not-found; the literal metadata path is served locally; the repository's
/// own `.repo` path is generated; any other path redirects to the snapshot
/// URL followed by the path with its leading slash dropped, or is not-found
/// when the snapshot label is unknown.
pub open spec fn resolve_model(
    catalog: Seq<(Seq<char>, RepoDefModel)>,
    platform: Seq<char>,
    repo: Seq<char>,
    arch: Seq<char>,
    snapshot: Seq<char>,
    file_path: Seq<char>,
) -> ResolutionModel {
    let name = composed_name(platform, repo, arch);
    match assoc_lookup(catalog, name) {
        None => ResolutionModel::NotFound,
        Some(def) => if file_path == "/repodata/repomd.xml"@ {
            ResolutionModel::ServeLocalMetadata { repo_name: name, snapshot }
        } else if file_path == "/"@ + name + ".repo"@ {
            ResolutionModel::GenerateConfig { platform, repo_name: name, arch, snapshot }
        } else {
            match assoc_lookup(def.snapshots, snapshot) {
                None => ResolutionModel::NotFound,
                Some(url) => ResolutionModel::Redirect { url: url + file_path.skip(1) },
            }
        },
    }
}

/// Resolves a request against the catalog. The file path is the remainder
/// of the request path and always carries its leading slash.
pub fn resolve(
    catalog: &RepoMap,
    platform: &str,
    repo: &str,
    arch: &str,
    snapshot: &str,
    file_path: &str,
) -> (r: Resolution)
    requires
        file_path@.len() >= 1,
        file_path@[0] == '/',
    ensures
        r@ == resolve_model(catalog@, platform@, repo@, arch@, snapshot@, file_path@),
{
    let repo_name = compose_repo_name(platform, repo, arch);
    match catalog.lookup_by_name(repo_name.as_str()) {
        None => Resolution::NotFound,
        Some(definition) => {
            if str_eq(file_path, "/repodata/repomd.xml") {
                Resolution::ServeLocalMetadata { repo_name, snapshot: String::from_str(snapshot) }
            } else {
                let mut repo_file = String::from_str("/");
                repo_file.append(repo_name.as_str());
                repo_file.append(".repo");
                if str_eq(file_path, repo_file.as_str()) {
                    Resolution::GenerateConfig {
                        platform: String::from_str(platform),
                        repo_name,
                        arch: String::from_str(arch),
                        snapshot: String::from_str(snapshot),
                    }
                } else {
                    match definition.snapshot_url(snapshot) {
                        None => Resolution::NotFound,
                        Some(url) => {
                            let suffix = file_path.substring_char(1, file_path.unicode_len());
                            proof {
                                assert(file_path@.subrange(1, file_path@.len() as int)
                                    =~= file_path@.skip(1));
                            }
                            let target = url.clone().concat(suffix);
                            Resolution::Redirect { url: target }
                        },
                    }
                }
            }
        },
    }
}

/// A repository's own `.repo` path is never the literal metadata path,
/// whatever the repository's name.
pub proof fn lemma_repo_path_not_repomd(name: Seq<char>)
    ensures
        "/"@ + name + ".repo"@ != "/repodata/repomd.xml"@,
{
    reveal_strlit("/");
    reveal_strlit(".repo");
    reveal_strlit("/repodata/repomd.xml");
    let p = "/"@ + name + ".repo"@;
    if p == "/repodata/repomd.xml"@ {
        assert(p.len() == 20);
        assert(name.len() == 14);
        assert(p[19] == ".repo"@[4]);
        assert(p[19] == 'l');
        assert(false);
    }
}

/// A request for the literal metadata path on a known repository is always
/// served from local disk, never redirected — even when the snapshot label
/// is known and a redirect target would exist.
pub proof fn lemma_repomd_always_served(
    catalog: Seq<(Seq<char>, RepoDefModel)>,
    platform: Seq<char>,
    repo: Seq<char>,
    arch: Seq<char>,
    snapshot: Seq<char>,
    def: RepoDefModel,
)
    requires
        assoc_lookup(catalog, composed_name(platform, repo, arch)) == Some(def),
        assoc_lookup(def.snapshots, snapshot) is Some,
    ensures
        resolve_model(catalog, platform, repo, arch, snapshot, "/repodata/repomd.xml"@) == (
        ResolutionModel::ServeLocalMetadata {
            repo_name: composed_name(platform, repo, arch),
            snapshot,
        }),
{
}

/// Resolving a known repository's own `.repo` path always yields the
/// generated configuration outcome, and the generated text contains the
/// section header, the `enabled` flag, and the local base URL built from
/// the request's identity fields.
#[verifier::rlimit(100)]
pub proof fn lemma_repo_config_generated(
    catalog: Seq<(Seq<char>, RepoDefModel)>,
    platform: Seq<char>,
    repo: Seq<char>,
    arch: Seq<char>,
    snapshot: Seq<char>,
    def: RepoDefModel,
)
    requires
        assoc_lookup(catalog, composed_name(platform, repo, arch)) == Some(def),
    ensures
        ({
            let name = composed_name(platform, repo, arch);
            resolve_model(catalog, platform, repo, arch, snapshot, "/"@ + name + ".repo"@) == (
            ResolutionModel::GenerateConfig { platform, repo_name: name, arch, snapshot })
        }),
        ({
            let name = composed_name(platform, repo, arch);
            has_substring(config_text(platform, name, arch, snapshot), "["@ + name + "]"@)
        }),
        ({
            let name = composed_name(platform, repo, arch);
            has_substring(config_text(platform, name, arch, snapshot), "enabled=1"@)
        }),
        ({
            let name = composed_name(platform, repo, arch);
            has_substring(
                config_text(platform, name, arch, snapshot),
                "baseurl=http://localhost:3779/"@ + platform + "/"@ + name + "/"@ + arch + "/"@
                    + snapshot + "/"@,
            )
        }),
{
    let name = composed_name(platform, repo, arch);
    lemma_repo_path_not_repomd(name);
    let text = config_text(platform, name, arch, snapshot);

    let mid1 = "["@ + name + "]"@;
    let post1 = "\n"@ + "name="@ + name + "\n"@ + "enabled=1"@ + "\n"@ + "baseurl="@
        + "http://localhost:3779/"@ + platform + "/"@ + name + "/"@ + arch + "/"@ + snapshot
        + "/"@ + "\n"@ + "gpgcheck=1"@ + "\n"@ + "repo_gpgcheck=0"@;
    assert(text =~= Seq::<char>::empty() + mid1 + post1);
    lemma_substring_at(Seq::<char>::empty(), mid1, post1);

    let pre2 = "["@ + name + "]"@ + "\n"@ + "name="@ + name + "\n"@;
    let mid2 = "enabled=1"@;
    let post2 = "\n"@ + "baseurl="@ + "http://localhost:3779/"@ + platform + "/"@ + name + "/"@
        + arch + "/"@ + snapshot + "/"@ + "\n"@ + "gpgcheck=1"@ + "\n"@ + "repo_gpgcheck=0"@;
    assert(text =~= pre2 + mid2 + post2);
    lemma_substring_at(pre2, mid2, post2);

    reveal_strlit("baseurl=");
    reveal_strlit("http://localhost:3779/");
    reveal_strlit("baseurl=http://localhost:3779/");
    assert("baseurl=http://localhost:3779/"@ =~= "baseurl="@ + "http://localhost:3779/"@);
    let pre3 = "["@ + name + "]"@ + "\n"@ + "name="@ + name + "\n"@ + "enabled=1"@ + "\n"@;
    let mid3 = "baseurl=http://localhost:3779/"@ + platform + "/"@ + name + "/"@ + arch + "/"@
        + snapshot + "/"@;
    let post3 = "\n"@ + "gpgcheck=1"@ + "\n"@ + "repo_gpgcheck=0"@;
    assert(text =~= pre3 + mid3 + post3);
    lemma_substring_at(pre3, mid3, post3);
}

/// An unknown composite repository name resolves to not-found, whatever
/// the requested path.
pub proof fn lemma_unknown_repo_not_found(
    catalog: Seq<(Seq<char>, RepoDefModel)>,
    platform: Seq<char>,
    repo: Seq<char>,
    arch: Seq<char>,
    snapshot: Seq<char>,
    file_path: Seq<char>,
)
    requires
        assoc_lookup(catalog, composed_name(platform, repo, arch)) is None,
    ensures
        resolve_model(catalog, platform, repo, arch, snapshot, file_path)
            == ResolutionModel::NotFound,
{
}

/// A known repository with an unknown snapshot label resolves a generic
/// file path to not-found.
pub proof fn lemma_unknown_snapshot_not_found(
    catalog: Seq<(Seq<char>, RepoDefModel)>,
    platform: Seq<char>,
    repo: Seq<char>,
    arch: Seq<char>,
    snapshot: Seq<char>,
    file_path: Seq<char>,
    def: RepoDefModel,
)
    requires
        assoc_lookup(catalog, composed_name(platform, repo, arch)) == Some(def),
        assoc_lookup(def.snapshots, snapshot) is None,
        file_path != "/repodata/repomd.xml"@,
        file_path != "/"@ + composed_name(platform, repo, arch) + ".repo"@,
    ensures
        resolve_model(catalog, platform, repo, arch, snapshot, file_path)
            == ResolutionModel::NotFound,
{
}

/// A generic file path on a known repository and known snapshot redirects
/// to the snapshot URL followed by the file path with its leading slash
/// dropped.
pub proof fn lemma_generic_file_redirected(
    catalog: Seq<(Seq<char>, RepoDefModel)>,
    platform: Seq<char>,
    repo: Seq<char>,
    arch: Seq<char>,
    snapshot: Seq<char>,
    file_path: Seq<char>,
    def: RepoDefModel,
    url: Seq<char>,
)
    requires
        assoc_lookup(catalog, composed_name(platform, repo, arch)) == Some(def),
        assoc_lookup(def.snapshots, snapshot) == Some(url),
        file_path != "/repodata/repomd.xml"@,
        file_path != "/"@ + composed_name(platform, repo, arch) + ".repo"@,
    ensures
        resolve_model(catalog, platform, repo, arch, snapshot, file_path) == (
        ResolutionModel::Redirect { url: url + file_path.skip(1) }),
{
}

} // verus!

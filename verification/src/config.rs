//! Generation of the client-side repository configuration file and of the
//! deterministic on-disk location of a snapshot's metadata file.

use vstd::prelude::*;

verus! {

/// The exact text of the generated configuration file for the four
/// identity fields. The embedded host is a fixed local placeholder.
pub open spec fn config_text(
    platform: Seq<char>,
    repo_name: Seq<char>,
    arch: Seq<char>,
    snapshot: Seq<char>,
) -> Seq<char> {
    "["@ + repo_name + "]"@ + "\n"@ + "name="@ + repo_name + "\n"@ + "enabled=1"@ + "\n"@
        + "baseurl="@ + "http://localhost:3779/"@ + platform + "/"@ + repo_name + "/"@ + arch
        + "/"@ + snapshot + "/"@ + "\n"@ + "gpgcheck=1"@ + "\n"@ + "repo_gpgcheck=0"@
}

/// Synthesizes the configuration file a client uses to consume the
/// mirrored repository: pure string construction, no I/O, no failure mode,
/// and no dependency on the catalog.
pub fn generate_repo_file(platform: &str, repo_name: &str, arch: &str, snapshot: &str) -> (r:
    String)
    ensures
        r@ == config_text(platform@, repo_name@, arch@, snapshot@),
{
    let mut r = String::from_str("[");
    r.append(repo_name);
    r.append("]");
    r.append("\n");
    r.append("name=");
    r.append(repo_name);
    r.append("\n");
    r.append("enabled=1");
    r.append("\n");
    r.append("baseurl=");
    r.append("http://localhost:3779/");
    r.append(platform);
    r.append("/");
    r.append(repo_name);
    r.append("/");
    r.append(arch);
    r.append("/");
    r.append(snapshot);
    r.append("/");
    r.append("\n");
    r.append("gpgcheck=1");
    r.append("\n");
    r.append("repo_gpgcheck=0");
    r
}

/// Configuration generation is a pure function of the four identity
/// fields: identical inputs give byte-identical output, with no dependency
/// on any catalog state.
pub proof fn lemma_config_generation_pure(
    platform_a: Seq<char>,
    repo_name_a: Seq<char>,
    arch_a: Seq<char>,
    snapshot_a: Seq<char>,
    platform_b: Seq<char>,
    repo_name_b: Seq<char>,
    arch_b: Seq<char>,
    snapshot_b: Seq<char>,
)
    requires
        platform_a == platform_b,
        repo_name_a == repo_name_b,
        arch_a == arch_b,
        snapshot_a == snapshot_b,
    ensures
        config_text(platform_a, repo_name_a, arch_a, snapshot_a) == config_text(
            platform_b,
            repo_name_b,
            arch_b,
            snapshot_b,
        ),
{
}

/// The deterministic local path of the metadata file served for a
/// repository and snapshot.
pub open spec fn metadata_path(repo_name: Seq<char>, snapshot: Seq<char>) -> Seq<char> {
    "snapshots/"@ + repo_name + "/"@ + snapshot + "/"@ + "repomd.xml"@
}

/// Builds the on-disk location of the metadata file for `repo_name` and
/// `snapshot`. Reading the file itself is the transport layer's concern.
pub fn repomd_file_path(repo_name: &str, snapshot: &str) -> (r: String)
    ensures
        r@ == metadata_path(repo_name@, snapshot@),
{
    let mut r = String::from_str("snapshots/");
    r.append(repo_name);
    r.append("/");
    r.append(snapshot);
    r.append("/");
    r.append("repomd.xml");
    r
}

} // verus!

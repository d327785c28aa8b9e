//! The repository catalog: an immutable index from a composite repository
//! name (`platform-repo-arch`) to the repository's definition, with the
//! per-snapshot base URLs kept as an association list with unique labels.

use vstd::prelude::*;

use crate::strings::str_eq;

verus! {

/// First-match lookup in an association list keyed by character sequences.
/// With unique keys this is exactly map lookup.
pub open spec fn assoc_lookup<V>(entries: Seq<(Seq<char>, V)>, key: Seq<char>) -> Option<V>
    decreases entries.len(),
{
    if entries.len() == 0 {
        None
    } else if entries[0].0 == key {
        Some(entries[0].1)
    } else {
        assoc_lookup(entries.drop_first(), key)
    }
}

/// All keys of the association list differ from `key`.
pub open spec fn key_absent<V>(entries: Seq<(Seq<char>, V)>, key: Seq<char>) -> bool {
    forall|i: int| 0 <= i < entries.len() ==> entries[i].0 != key
}

/// No two entries of the association list share a key.
pub open spec fn keys_unique<V>(entries: Seq<(Seq<char>, V)>) -> bool {
    forall|i: int, j: int| 0 <= i < j < entries.len() ==> entries[i].0 != entries[j].0
}

/// First-match lookup misses exactly when no entry carries the key.
pub proof fn lemma_assoc_lookup_none<V>(entries: Seq<(Seq<char>, V)>, key: Seq<char>)
    ensures
        (assoc_lookup(entries, key) is None) <==> key_absent(entries, key),
    decreases entries.len(),
{
    if entries.len() > 0 {
        lemma_assoc_lookup_none(entries.drop_first(), key);
        if entries[0].0 != key {
            assert forall|i: int| 0 <= i < entries.len() implies
                (entries[i].0 != key) == (i == 0 || entries.drop_first()[i - 1].0 != key) by {
                if i > 0 {
                    assert(entries.drop_first()[i - 1] == entries[i]);
                }
            }
        }
    }
}

/// The mathematical content of a repository definition.
pub struct RepoDefModel {
    pub repo: Seq<char>,
    pub arch: Seq<char>,
    pub platform: Seq<char>,
    pub base_url: Seq<char>,
    pub snapshots: Seq<(Seq<char>, Seq<char>)>,
    pub latest_snapshot: Seq<char>,
}

/// One repository of the catalog: descriptive identity fields and the map
/// from snapshot label to that snapshot's base URL. `base_url` and
/// `latest_snapshot` are carried as inert metadata; resolution never reads
/// them.
pub struct RepoDefinition {
    pub repo: String,
    pub arch: String,
    pub platform: String,
    pub base_url: String,
    pub snapshots: Vec<(String, String)>,
    pub latest_snapshot: String,
}

impl View for RepoDefinition {
    type V = RepoDefModel;

    open spec fn view(&self) -> RepoDefModel {
        RepoDefModel {
            repo: self.repo@,
            arch: self.arch@,
            platform: self.platform@,
            base_url: self.base_url@,
            snapshots: Seq::new(
                self.snapshots@.len(),
                |i: int| (self.snapshots@[i].0@, self.snapshots@[i].1@),
            ),
            latest_snapshot: self.latest_snapshot@,
        }
    }
}

impl RepoDefinition {
    /// A field-for-field copy of this definition.
    pub fn duplicate(&self) -> (r: RepoDefinition)
        ensures
            r@ == self@,
    {
        let mut snapshots: Vec<(String, String)> = Vec::new();
        let mut i: usize = 0;
        while i < self.snapshots.len()
            invariant
                i <= self.snapshots.len(),
                snapshots@.len() == i as int,
                forall|j: int| 0 <= j < i ==> snapshots@[j].0@ == self.snapshots@[j].0@
                    && snapshots@[j].1@ == self.snapshots@[j].1@,
            decreases self.snapshots.len() - i,
        {
            let pair = (self.snapshots[i].0.clone(), self.snapshots[i].1.clone());
            snapshots.push(pair);
            i = i + 1;
        }
        let r = RepoDefinition {
            repo: self.repo.clone(),
            arch: self.arch.clone(),
            platform: self.platform.clone(),
            base_url: self.base_url.clone(),
            snapshots,
            latest_snapshot: self.latest_snapshot.clone(),
        };
        proof {
            assert(r@.snapshots =~= self@.snapshots);
            assert(r@ == self@);
        }
        r
    }

    /// The URL recorded for `label`, if that snapshot exists.
    pub fn snapshot_url(&self, label: &str) -> (r: Option<&String>)
        ensures
            match r {
                Some(url) => assoc_lookup(self@.snapshots, label@) == Some(url@),
                None => assoc_lookup(self@.snapshots, label@) is None,
            },
    {
        let n = self.snapshots.len();
        let mut i: usize = 0;
        proof {
            assert(self@.snapshots.skip(0) =~= self@.snapshots);
        }
        while i < n
            invariant
                n == self.snapshots.len(),
                i <= n,
                assoc_lookup(self@.snapshots, label@)
                    == assoc_lookup(self@.snapshots.skip(i as int), label@),
            decreases n - i,
        {
            let ghost pending = self@.snapshots.skip(i as int);
            if str_eq(self.snapshots[i].0.as_str(), label) {
                proof {
                    assert(pending[0] == self@.snapshots[i as int]);
                }
                return Some(&self.snapshots[i].1);
            }
            proof {
                assert(pending[0] == self@.snapshots[i as int]);
                assert(pending.drop_first() =~= self@.snapshots.skip(i + 1));
            }
            i = i + 1;
        }
        proof {
            assert(self@.snapshots.skip(n as int) =~= Seq::<(Seq<char>, Seq<char>)>::empty());
        }
        None
    }
}

/// The composite catalog key, `platform-repo-arch`.
pub open spec fn composed_name(platform: Seq<char>, repo: Seq<char>, arch: Seq<char>) -> Seq<char> {
    platform + "-"@ + repo + "-"@ + arch
}

/// Builds the composite catalog key from the three identity fields.
/// Key construction lives here and nowhere else, so the catalog loader and
/// the resolver cannot drift apart.
pub fn compose_repo_name(platform: &str, repo: &str, arch: &str) -> (r: String)
    ensures
        r@ == composed_name(platform@, repo@, arch@),
{
    let mut r = String::from_str(platform);
    r.append("-");
    r.append(repo);
    r.append("-");
    r.append(arch);
    r
}

/// The immutable catalog: composite repository name to definition.
/// Built once before the service accepts requests, read-only thereafter.
pub struct RepoMap {
    repos: Vec<(String, RepoDefinition)>,
}

impl View for RepoMap {
    type V = Seq<(Seq<char>, RepoDefModel)>;

    closed spec fn view(&self) -> Seq<(Seq<char>, RepoDefModel)> {
        Seq::new(self.repos@.len(), |i: int| (self.repos@[i].0@, self.repos@[i].1@))
    }
}

impl RepoMap {
    /// Catalog invariant: composite names are unique, each equals the name
    /// composed from its definition's own identity fields, and each
    /// definition's snapshot labels are unique.
    pub open spec fn wf(&self) -> bool {
        &&& keys_unique(self@)
        &&& forall|i: int| 0 <= i < self@.len()
            ==> (#[trigger] self@[i]).0
                == composed_name(self@[i].1.platform, self@[i].1.repo, self@[i].1.arch)
        &&& forall|i: int| 0 <= i < self@.len() ==> keys_unique((#[trigger] self@[i]).1.snapshots)
    }

    /// The empty catalog.
    pub fn new() -> (r: RepoMap)
        ensures
            r.wf(),
            r@ == Seq::<(Seq<char>, RepoDefModel)>::empty(),
    {
        let r = RepoMap { repos: Vec::new() };
        proof {
            assert(r@ =~= Seq::<(Seq<char>, RepoDefModel)>::empty());
        }
        r
    }

    /// Adds a definition under its composed name. Returns whether it was
    /// added; a definition whose composed name is already present, or whose
    /// snapshot labels collide, leaves the catalog unchanged.
    pub fn insert(&mut self, def: RepoDefinition) -> (added: bool)
        requires
            old(self).wf(),
        ensures
            final(self).wf(),
            added == (assoc_lookup(
                old(self)@,
                composed_name(def@.platform, def@.repo, def@.arch),
            ) is None && keys_unique(def@.snapshots)),
            added ==> final(self)@ == old(self)@.push(
                (composed_name(def@.platform, def@.repo, def@.arch), def@),
            ),
            !added ==> final(self)@ == old(self)@,
    {
        let ghost def_v = def@;
        let name = compose_repo_name(def.platform.as_str(), def.repo.as_str(), def.arch.as_str());
        let ghost name_v = name@;
        if self.lookup_by_name(name.as_str()).is_some() {
            return false;
        }
        if !snapshot_labels_unique(&def.snapshots) {
            proof {
                assert(Seq::new(
                    def.snapshots@.len(),
                    |i: int| (def.snapshots@[i].0@, def.snapshots@[i].1@),
                ) =~= def_v.snapshots);
            }
            return false;
        }
        proof {
            lemma_assoc_lookup_none(self@, name_v);
            assert(Seq::new(
                def.snapshots@.len(),
                |i: int| (def.snapshots@[i].0@, def.snapshots@[i].1@),
            ) =~= def_v.snapshots);
        }
        let ghost before = self@;
        self.repos.push((name, def));
        proof {
            assert(self@ =~= before.push((name_v, def_v)));
            assert forall|i: int, j: int| 0 <= i < j < self@.len() implies
                self@[i].0 != self@[j].0 by {
                assert(self@[i] == before.push((name_v, def_v))[i]);
                assert(self@[j] == before.push((name_v, def_v))[j]);
                if j < before.len() {
                    assert(self@[i] == before[i]);
                    assert(self@[j] == before[j]);
                } else {
                    assert(self@[i] == before[i]);
                    assert(self@[j] == (name_v, def_v));
                }
            }
            assert forall|i: int| 0 <= i < self@.len() implies
                (#[trigger] self@[i]).0
                    == composed_name(self@[i].1.platform, self@[i].1.repo, self@[i].1.arch) by {
                if i < before.len() {
                    assert(self@[i] == before[i]);
                } else {
                    assert(self@[i] == (name_v, def_v));
                }
            }
            assert forall|i: int| 0 <= i < self@.len() implies
                keys_unique((#[trigger] self@[i]).1.snapshots) by {
                if i < before.len() {
                    assert(self@[i] == before[i]);
                } else {
                    assert(self@[i] == (name_v, def_v));
                }
            }
        }
        true
    }

    /// The definition stored under `name`, copied out, if one exists.
    pub fn lookup_by_name(&self, name: &str) -> (r: Option<RepoDefinition>)
        ensures
            match r {
                Some(d) => assoc_lookup(self@, name@) == Some(d@),
                None => assoc_lookup(self@, name@) is None,
            },
    {
        let n = self.repos.len();
        let mut i: usize = 0;
        proof {
            assert(self@.skip(0) =~= self@);
        }
        while i < n
            invariant
                n == self.repos.len(),
                i <= n,
                assoc_lookup(self@, name@) == assoc_lookup(self@.skip(i as int), name@),
            decreases n - i,
        {
            let ghost pending = self@.skip(i as int);
            if str_eq(self.repos[i].0.as_str(), name) {
                proof {
                    assert(pending[0] == self@[i as int]);
                }
                return Some(self.repos[i].1.duplicate());
            }
            proof {
                assert(pending[0] == self@[i as int]);
                assert(pending.drop_first() =~= self@.skip(i + 1));
            }
            i = i + 1;
        }
        proof {
            assert(self@.skip(n as int) =~= Seq::<(Seq<char>, RepoDefModel)>::empty());
        }
        None
    }
}

/// Whether every snapshot label in the list differs from every other.
fn snapshot_labels_unique(snapshots: &Vec<(String, String)>) -> (r: bool)
    ensures
        r == keys_unique(Seq::new(
            snapshots@.len(),
            |i: int| (snapshots@[i].0@, snapshots@[i].1@),
        )),
{
    let ghost model = Seq::new(snapshots@.len(), |i: int| (snapshots@[i].0@, snapshots@[i].1@));
    let n = snapshots.len();
    let mut i: usize = 0;
    while i < n
        invariant
            n == snapshots.len(),
            i <= n,
            model.len() == n as int,
            forall|k: int| 0 <= k < n ==> #[trigger] model[k] == (snapshots@[k].0@, snapshots@[k].1@),
            forall|a: int, b: int| 0 <= a < b < model.len() && a < i ==> model[a].0 != model[b].0,
        decreases n - i,
    {
        let mut j: usize = i + 1;
        while j < n
            invariant
                n == snapshots.len(),
                i < n,
                i < j <= n,
                model.len() == n as int,
                forall|k: int| 0 <= k < n ==> #[trigger] model[k] == (snapshots@[k].0@, snapshots@[k].1@),
                forall|b: int| i < b < j ==> model[i as int].0 != model[b].0,
            decreases n - j,
        {
            if str_eq(snapshots[i].0.as_str(), snapshots[j].0.as_str()) {
                proof {
                    assert(model[i as int].0 == model[j as int].0);
                    assert(!keys_unique(model));
                    assert(model =~= Seq::new(
                        snapshots@.len(),
                        |k: int| (snapshots@[k].0@, snapshots@[k].1@),
                    ));
                }
                return false;
            }
            j = j + 1;
        }
        i = i + 1;
    }
    proof {
        assert(keys_unique(model));
        assert(model =~= Seq::new(
            snapshots@.len(),
            |k: int| (snapshots@[k].0@, snapshots@[k].1@),
        ));
    }
    true
}

} // verus!

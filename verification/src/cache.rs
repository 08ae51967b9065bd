//! The committed cache, modelled as the set of versions whose artifact is
//! visible under its final name. The filesystem layer that realises it keeps
//! the same discipline: a staged artifact becomes visible only through one
//! atomic rename onto the deterministic name of its version.

use vstd::prelude::*;
use crate::naming::artifact_name;
use crate::naming::artifact_name_spec;

verus! {

/// A committed artifact: its version, its deterministic file name under the
/// cache root, and its existence flag. Created only when an artifact has
/// passed verification; never mutated.
pub struct CacheEntry {
    pub version: u64,
    pub name: Vec<u8>,
    pub present: bool,
}

impl CacheEntry {
    /// The one well-formed entry for a version: present, under the
    /// deterministic artifact name.
    pub open spec fn is_committed_for(&self, version: u64) -> bool {
        &&& self.version == version
        &&& self.name@ == artifact_name_spec(version)
        &&& self.present
    }
}

/// The set of versions committed to the cache root.
pub struct CacheStore {
    versions: Vec<u64>,
}

impl View for CacheStore {
    type V = Set<u64>;

    closed spec fn view(&self) -> Set<u64> {
        self.versions@.to_set()
    }
}

impl CacheStore {
    /// An empty cache root.
    pub fn new() -> (r: CacheStore)
        ensures
            r@ == Set::<u64>::empty(),
    {
        let r = CacheStore { versions: Vec::new() };
        proof {
            assert(r@ =~= Set::<u64>::empty());
        }
        r
    }

    /// Whether a committed artifact for `version` is present. A pure lookup:
    /// it never reaches for the catalog or the network.
    pub fn has_version(&self, version: u64) -> (r: bool)
        ensures
            r == self@.contains(version),
    {
        let mut i: usize = 0;
        while i < self.versions.len()
            invariant
                i <= self.versions@.len(),
                forall|j: int| 0 <= j < i ==> self.versions@[j] != version,
            decreases self.versions@.len() - i,
        {
            if self.versions[i] == version {
                proof {
                    assert(self.versions@.contains(version));
                }
                return true;
            }
            i += 1;
        }
        proof {
            assert(!self.versions@.contains(version));
        }
        false
    }

    /// The deterministic name an artifact for `version` lives under, used
    /// both for lookup and for commit so that re-runs are idempotent.
    pub fn path_for(&self, version: u64) -> (r: Vec<u8>)
        ensures
            r@ == artifact_name_spec(version),
    {
        artifact_name(version)
    }

    /// Commits a verified artifact: after the call the version is in the
    /// cache, and the entry handed back is the deterministic one for it.
    /// Committing a version already present changes nothing, so re-runs and
    /// concurrent losers leave exactly one committed artifact.
    pub fn commit(&mut self, version: u64) -> (e: CacheEntry)
        ensures
            final(self)@ == old(self)@.insert(version),
            e.is_committed_for(version),
    {
        let there = self.has_version(version);
        if !there {
            let ghost before = self.versions@;
            self.versions.push(version);
            proof {
                assert forall|x: u64| self.versions@.contains(x) <==> (before.contains(x) || x
                    == version) by {
                    if self.versions@.contains(x) {
                        let k = choose|k: int|
                            0 <= k < self.versions@.len() && self.versions@[k] == x;
                        if k < before.len() {
                            assert(before[k] == x);
                        }
                    }
                    if before.contains(x) {
                        let k = choose|k: int| 0 <= k < before.len() && before[k] == x;
                        assert(self.versions@[k] == x);
                    }
                    if x == version {
                        assert(self.versions@[before.len() as int] == x);
                    }
                }
                assert(self@ =~= old(self)@.insert(version));
            }
        } else {
            proof {
                assert(self@ =~= old(self)@.insert(version));
            }
        }
        CacheEntry { version, name: artifact_name(version), present: true }
    }
}

/// There is only one committed entry for a version: two runs that both end
/// with the version committed hand back the same entry, field for field.
pub proof fn lemma_committed_entries_equal(e1: &CacheEntry, e2: &CacheEntry, version: u64)
    requires
        e1.is_committed_for(version),
        e2.is_committed_for(version),
    ensures
        e1.version == e2.version,
        e1.name@ == e2.name@,
        e1.present == e2.present,
{
}

/// Committing the same version twice is the same as committing it once:
/// however many acquisition runs race on one version, the cache ends with
/// exactly one committed artifact for it.
pub proof fn lemma_commit_idempotent(cache: Set<u64>, version: u64)
    ensures
        cache.insert(version).insert(version) == cache.insert(version),
{
    assert(cache.insert(version).insert(version) =~= cache.insert(version));
}

} // verus!

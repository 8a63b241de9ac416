//! The version ledger: one record per repository of the release last installed.
//! The caller loads and stores the records; here they are looked up and changed.

use vstd::prelude::*;
use crate::release::{GithubRelease, RepoConfig};

verus! {

/// The ledger entry of one repository.
#[derive(Debug, Clone)]
pub struct VersionStore {
    pub repo_name: String,
    pub release_id: u64,
    pub node_id: String,
    pub tag: String,
}

/// A ledger entry as plain values.
pub struct RecordView {
    pub repo_name: Seq<char>,
    pub release_id: u64,
    pub node_id: Seq<char>,
    pub tag: Seq<char>,
}

impl View for VersionStore {
    type V = RecordView;

    open spec fn view(&self) -> RecordView {
        RecordView {
            repo_name: self.repo_name@,
            release_id: self.release_id,
            node_id: self.node_id@,
            tag: self.tag@,
        }
    }
}

/// The entries of a ledger as plain values.
pub open spec fn records(v: Seq<VersionStore>) -> Seq<RecordView> {
    v.map_values(|r: VersionStore| r@)
}

/// Some entry of `s` has the key `key`.
pub open spec fn has_key(s: Seq<RecordView>, key: Seq<char>) -> bool {
    exists|i: int| 0 <= i < s.len() && #[trigger] s[i].repo_name == key
}

/// `i` is the first position in `s` with the key `key`.
pub open spec fn is_first_key_index(s: Seq<RecordView>, key: Seq<char>, i: int) -> bool {
    &&& 0 <= i < s.len()
    &&& s[i].repo_name == key
    &&& forall|j: int| 0 <= j < i ==> #[trigger] s[j].repo_name != key
}

/// No two entries share a key.
pub open spec fn keys_unique(s: Seq<RecordView>) -> bool {
    forall|i: int, j: int|
        0 <= i < s.len() && 0 <= j < s.len() && i != j ==> #[trigger] s[i].repo_name != #[trigger] s[j].repo_name
}

/// The record that a successful install of `release` for the target keyed `key` leaves.
pub open spec fn record_of(key: Seq<char>, release: GithubRelease) -> RecordView {
    RecordView {
        repo_name: key,
        release_id: release.release_id,
        node_id: release.node_id@,
        tag: release.tag@,
    }
}

/// The record of the first entry with the key `key`, if any.
pub open spec fn lookup(s: Seq<RecordView>, key: Seq<char>) -> Option<RecordView> {
    if has_key(s, key) {
        Some(s[choose|i: int| is_first_key_index(s, key, i)])
    } else {
        None
    }
}

/// Where a key stands, it has a first position, and only one.
pub proof fn lemma_first_key_index(s: Seq<RecordView>, key: Seq<char>)
    requires
        has_key(s, key),
    ensures
        exists|i: int| is_first_key_index(s, key, i),
        forall|i: int, j: int| is_first_key_index(s, key, i) && is_first_key_index(s, key, j) ==> i == j,
    decreases s.len(),
{
    let k = choose|k: int| 0 <= k < s.len() && #[trigger] s[k].repo_name == key;
    if s[0].repo_name == key {
        assert(is_first_key_index(s, key, 0));
    } else {
        let t = s.drop_first();
        assert(t[k - 1].repo_name == key);
        lemma_first_key_index(t, key);
        let i = choose|i: int| is_first_key_index(t, key, i);
        assert forall|j: int| 0 <= j < i + 1 implies #[trigger] s[j].repo_name != key by {
            if j > 0 {
                assert(s[j] == t[j - 1]);
            }
        }
        assert(is_first_key_index(s, key, i + 1));
    }
    assert forall|i: int, j: int| is_first_key_index(s, key, i) && is_first_key_index(s, key, j) implies i == j by {
        if i < j {
            assert(s[i].repo_name != key);
        } else if j < i {
            assert(s[j].repo_name != key);
        }
    }
}

impl VersionStore {
    /// The record of `release` installed for `repo`.
    pub fn new(release: &GithubRelease, repo: &RepoConfig) -> (r: VersionStore)
        ensures
            r@ == record_of(repo.key(), *release),
    {
        VersionStore {
            repo_name: repo.repo_key(),
            release_id: release.release_id,
            node_id: release.node_id.clone(),
            tag: release.tag.clone(),
        }
    }

    /// A copy with the same contents.
    pub fn duplicate(&self) -> (r: VersionStore)
        ensures
            r@ == self@,
    {
        VersionStore {
            repo_name: self.repo_name.clone(),
            release_id: self.release_id,
            node_id: self.node_id.clone(),
            tag: self.tag.clone(),
        }
    }

    /// The position of the first entry keyed `repo_name`.
    pub fn position(versions: &Vec<VersionStore>, repo_name: &str) -> (r: Option<usize>)
        ensures
            r is None <==> !has_key(records(versions@), repo_name@),
            r matches Some(i) ==> is_first_key_index(records(versions@), repo_name@, i as int),
    {
        let ghost s = records(versions@);
        let mut i: usize = 0;
        while i < versions.len()
            invariant
                s == records(versions@),
                i <= versions.len(),
                forall|j: int| 0 <= j < i ==> #[trigger] s[j].repo_name != repo_name@,
            decreases versions.len() - i,
        {
            if versions[i].repo_name == String::from_str(repo_name) {
                assert(s[i as int].repo_name == repo_name@);
                return Some(i);
            }
            assert(s[i as int] == versions@[i as int]@);
            i = i + 1;
        }
        assert(!has_key(s, repo_name@));
        None
    }

    /// The record of the repository keyed `repo_name`, if the ledger holds one.
    pub fn get(versions: &Vec<VersionStore>, repo_name: &str) -> (r: Option<VersionStore>)
        ensures
            r matches Some(v) ==> lookup(records(versions@), repo_name@) == Some(v@),
            r is None ==> lookup(records(versions@), repo_name@) is None,
    {
        match VersionStore::position(versions, repo_name) {
            Some(i) => {
                proof {
                    lemma_first_key_index(records(versions@), repo_name@);
                }
                Some(versions[i].duplicate())
            },
            None => None,
        }
    }

    /// Adds this record at the end of the ledger.
    pub fn write(&self, versions: &mut Vec<VersionStore>)
        ensures
            records(final(versions)@) == records(old(versions)@).push(self@),
    {
        versions.push(self.duplicate());
        proof {
            assert(records(final(versions)@) =~= records(old(versions)@).push(self@));
        }
    }

    /// Puts `new_version` in place of the first entry with this record's key,
    /// which the ledger must hold.
    pub fn replace(&self, new_version: VersionStore, versions: &mut Vec<VersionStore>)
        requires
            has_key(records(old(versions)@), self.repo_name@),
        ensures
            exists|i: int|
                is_first_key_index(records(old(versions)@), self.repo_name@, i)
                && records(final(versions)@) == records(old(versions)@).update(i, new_version@),
    {
        let i = VersionStore::position(versions, self.repo_name.as_str()).unwrap();
        let ghost nv = new_version@;
        versions.set(i, new_version);
        proof {
            assert(records(final(versions)@) =~= records(old(versions)@).update(i as int, nv));
        }
    }
}

} // verus!

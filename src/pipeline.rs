//! The decisions of one repository's update: whether to update, which asset,
//! how to unpack it, the order of the install steps, and the ledger commit.
//! The caller performs each step (download, removal, unpacking) and reports back.

use vstd::prelude::*;
use crate::ledger::{
    has_key, is_first_key_index, keys_unique, lemma_first_key_index, lookup, record_of, records,
    RecordView, VersionStore,
};
use crate::release::{pinned_tag, GithubRelease, RepoConfig};
use crate::selector::{is_selection, lowered_names, PlatformProfile};
use crate::text::{ends_with_seq, str_ends_with};

verus! {

/// How a downloaded artifact is activated, by the suffix of its name.
#[derive(Debug, Clone, Copy, PartialEq, Eq, Structural)]
pub enum ArtifactKind {
    /// A `.zip` archive, unpacked into the tool's directory.
    Archive,
    /// A bare `.exe`, moved into the tool's directory.
    Executable,
    /// Anything else: left in staging.
    Unsupported,
}

pub open spec fn kind_of(name: Seq<char>) -> ArtifactKind {
    if ends_with_seq(name, ".zip"@) {
        ArtifactKind::Archive
    } else if ends_with_seq(name, ".exe"@) {
        ArtifactKind::Executable
    } else {
        ArtifactKind::Unsupported
    }
}

/// The kind of an artifact named `name`.
pub fn artifact_kind(name: &str) -> (r: ArtifactKind)
    ensures
        r == kind_of(name@),
{
    if str_ends_with(name, ".zip") {
        ArtifactKind::Archive
    } else if str_ends_with(name, ".exe") {
        ArtifactKind::Executable
    } else {
        ArtifactKind::Unsupported
    }
}

/// An update is due when nothing is recorded, or when the recorded tag differs
/// from the release's, unless the target is pinned to the recorded tag.
pub open spec fn needs_update_spec(
    existing: Option<RecordView>,
    release_tag: Seq<char>,
    force_tag: Option<Seq<char>>,
) -> bool {
    match existing {
        None => true,
        Some(r) => r.tag != release_tag && force_tag != Some(r.tag),
    }
}

/// Whether `repo` must be updated to `release`, given its recorded install.
pub fn needs_update(existing: &Option<VersionStore>, release: &GithubRelease, repo: &RepoConfig) -> (r: bool)
    ensures
        r == needs_update_spec(
            match existing {
                Some(v) => Some(v@),
                None => None,
            },
            release.tag@,
            pinned_tag(repo.force_tag),
        ),
{
    match existing {
        None => true,
        Some(v) => {
            let pinned = match &repo.force_tag {
                Some(t) => *t == v.tag,
                None => false,
            };
            !(v.tag == release.tag) && !pinned
        },
    }
}

/// What to do for one repository once its release is known.
#[derive(Debug, Clone, Copy, PartialEq, Eq, Structural)]
pub enum UpdatePlan {
    /// The recorded install is current.
    UpToDate,
    /// No asset of the release fits this platform.
    NoMatchingAsset,
    /// Download the asset at `asset` and activate it.
    Install { asset: usize, kind: ArtifactKind, replace_existing: bool },
}

/// `r` is the plan for `repo` and `release` against the ledger `ledger`.
pub open spec fn is_plan(
    repo: RepoConfig,
    release: GithubRelease,
    ledger: Seq<RecordView>,
    p: PlatformProfile,
    r: UpdatePlan,
) -> bool {
    let existing = lookup(ledger, repo.key());
    if !needs_update_spec(existing, release.tag@, pinned_tag(repo.force_tag)) {
        r is UpToDate
    } else {
        match r {
            UpdatePlan::UpToDate => false,
            UpdatePlan::NoMatchingAsset => is_selection(lowered_names(release.assets@), p, None),
            UpdatePlan::Install { asset, kind, replace_existing } => {
                &&& is_selection(lowered_names(release.assets@), p, Some(asset as int))
                &&& kind == kind_of(release.assets@[asset as int].name@)
                &&& replace_existing == existing is Some
            },
        }
    }
}

/// Decides what to do for `repo`, whose release is `release`, given the ledger.
pub fn plan_update(
    repo: &RepoConfig,
    release: &GithubRelease,
    versions: &Vec<VersionStore>,
    profile: &PlatformProfile,
) -> (r: UpdatePlan)
    ensures
        is_plan(*repo, *release, records(versions@), *profile, r),
{
    let key = repo.repo_key();
    let existing = VersionStore::get(versions, key.as_str());
    if !needs_update(&existing, release, repo) {
        return UpdatePlan::UpToDate;
    }
    match profile.select_asset(&release.assets) {
        None => UpdatePlan::NoMatchingAsset,
        Some(i) => UpdatePlan::Install {
            asset: i,
            kind: artifact_kind(release.assets[i].name.as_str()),
            replace_existing: existing.is_some(),
        },
    }
}

/// The ledger after a successful install of `rec`: the entry with its key is
/// replaced, or `rec` is added when there is none.
pub open spec fn commit_spec(ledger: Seq<RecordView>, rec: RecordView) -> Seq<RecordView> {
    if has_key(ledger, rec.repo_name) {
        ledger.update(choose|i: int| is_first_key_index(ledger, rec.repo_name, i), rec)
    } else {
        ledger.push(rec)
    }
}

/// Where the outcome of one repository's update stands.
#[derive(Debug, Clone, Copy, PartialEq, Eq, Structural)]
pub enum UpdateOutcome {
    /// The new release is installed and recorded.
    Updated,
    /// The artifact's kind cannot be activated; it stays in staging.
    Unsupported,
    /// A step failed; the ledger is as it was.
    Failed,
}

/// The step of an install that is to be performed next.
#[derive(Debug, Clone, Copy, PartialEq, Eq, Structural)]
pub enum InstallStep {
    Download,
    RemoveOld,
    Extract,
    Relocate,
    Done(UpdateOutcome),
}

/// The step that activates an artifact of kind `kind`.
pub open spec fn unpack_step(kind: ArtifactKind) -> InstallStep {
    match kind {
        ArtifactKind::Archive => InstallStep::Extract,
        ArtifactKind::Executable => InstallStep::Relocate,
        ArtifactKind::Unsupported => InstallStep::Done(UpdateOutcome::Unsupported),
    }
}

/// The step after `step`, which succeeded or not.
pub open spec fn next_step_spec(kind: ArtifactKind, replace_existing: bool, step: InstallStep, succeeded: bool) -> InstallStep {
    match step {
        InstallStep::Done(o) => InstallStep::Done(o),
        _ => if !succeeded {
            InstallStep::Done(UpdateOutcome::Failed)
        } else {
            match step {
                InstallStep::Download => if kind is Unsupported {
                    InstallStep::Done(UpdateOutcome::Unsupported)
                } else if replace_existing {
                    InstallStep::RemoveOld
                } else {
                    unpack_step(kind)
                },
                InstallStep::RemoveOld => unpack_step(kind),
                _ => InstallStep::Done(UpdateOutcome::Updated),
            }
        },
    }
}

/// The ledger after `step` ended: committed only when unpacking succeeded.
pub open spec fn ledger_after(ledger: Seq<RecordView>, rec: RecordView, step: InstallStep, succeeded: bool) -> Seq<RecordView> {
    if succeeded && (step is Extract || step is Relocate) {
        commit_spec(ledger, rec)
    } else {
        ledger
    }
}

/// One repository's install, from download to ledger commit.
#[derive(Debug)]
pub struct UpdateRun {
    pub kind: ArtifactKind,
    pub replace_existing: bool,
    pub record: VersionStore,
    pub step: InstallStep,
}

impl UpdateRun {
    /// A run that starts with the download; `record` is written on success.
    pub fn new(kind: ArtifactKind, replace_existing: bool, record: VersionStore) -> (r: UpdateRun)
        ensures
            r.kind == kind,
            r.replace_existing == replace_existing,
            r.record == record,
            r.step == InstallStep::Download,
    {
        UpdateRun { kind, replace_existing, record, step: InstallStep::Download }
    }

    /// Records how the current step went and moves to the next one. When
    /// unpacking succeeded, the ledger takes the new record; otherwise it is left
    /// as it was.
    pub fn advance(&mut self, succeeded: bool, versions: &mut Vec<VersionStore>)
        ensures
            final(self).kind == old(self).kind,
            final(self).replace_existing == old(self).replace_existing,
            final(self).record == old(self).record,
            final(self).step == next_step_spec(old(self).kind, old(self).replace_existing, old(self).step, succeeded),
            records(final(versions)@) == ledger_after(records(old(versions)@), old(self).record@, old(self).step, succeeded),
    {
        let step = self.step;
        let unpack = match self.kind {
            ArtifactKind::Archive => InstallStep::Extract,
            ArtifactKind::Executable => InstallStep::Relocate,
            ArtifactKind::Unsupported => InstallStep::Done(UpdateOutcome::Unsupported),
        };
        match step {
            InstallStep::Done(_) => {},
            _ => if !succeeded {
                self.step = InstallStep::Done(UpdateOutcome::Failed);
            } else {
                match step {
                    InstallStep::Download => {
                        if let ArtifactKind::Unsupported = self.kind {
                            self.step = InstallStep::Done(UpdateOutcome::Unsupported);
                        } else if self.replace_existing {
                            self.step = InstallStep::RemoveOld;
                        } else {
                            self.step = unpack;
                        }
                    },
                    InstallStep::RemoveOld => {
                        self.step = unpack;
                    },
                    _ => {
                        commit_install(versions, &self.record);
                        self.step = InstallStep::Done(UpdateOutcome::Updated);
                    },
                }
            },
        }
    }
}

/// Writes `rec` into the ledger: in place of the entry with its key, or added
/// at the end when there is none.
pub fn commit_install(versions: &mut Vec<VersionStore>, rec: &VersionStore)
    ensures
        records(final(versions)@) == commit_spec(records(old(versions)@), rec@),
{
    let ghost l = records(versions@);
    match VersionStore::get(versions, rec.repo_name.as_str()) {
        Some(existing) => {
            proof {
                lemma_first_key_index(l, rec.repo_name@);
            }
            existing.replace(rec.duplicate(), versions);
        },
        None => {
            rec.write(versions);
        },
    }
}

/// After a commit the ledger's lookup of the committed key gives the committed record.
proof fn lemma_lookup_after_commit(ledger: Seq<RecordView>, rec: RecordView)
    ensures
        lookup(commit_spec(ledger, rec), rec.repo_name) == Some(rec),
{
    let key = rec.repo_name;
    let l2 = commit_spec(ledger, rec);
    if has_key(ledger, key) {
        lemma_first_key_index(ledger, key);
        let i = choose|i: int| is_first_key_index(ledger, key, i);
        assert(l2 == ledger.update(i, rec));
        assert(is_first_key_index(l2, key, i));
        lemma_first_key_index(l2, key);
    } else {
        let n = ledger.len() as int;
        assert(l2 == ledger.push(rec));
        assert(l2[n].repo_name == key);
        assert forall|j: int| 0 <= j < n implies #[trigger] l2[j].repo_name != key by {
            assert(l2[j] == ledger[j]);
        }
        assert(is_first_key_index(l2, key, n));
        lemma_first_key_index(l2, key);
    }
}

/// Committing a record keeps every key of the ledger to at most one entry.
pub proof fn lemma_commit_keeps_keys_unique(ledger: Seq<RecordView>, rec: RecordView)
    requires
        keys_unique(ledger),
    ensures
        keys_unique(commit_spec(ledger, rec)),
{
    let key = rec.repo_name;
    let l2 = commit_spec(ledger, rec);
    if has_key(ledger, key) {
        lemma_first_key_index(ledger, key);
        let i = choose|i: int| is_first_key_index(ledger, key, i);
        assert forall|a: int, b: int|
            0 <= a < l2.len() && 0 <= b < l2.len() && a != b implies #[trigger] l2[a].repo_name
            != #[trigger] l2[b].repo_name by {
            if a == i {
                assert(ledger[b].repo_name != ledger[i].repo_name);
            } else if b == i {
                assert(ledger[a].repo_name != ledger[i].repo_name);
            } else {
                assert(ledger[a].repo_name != ledger[b].repo_name);
            }
        }
    } else {
        let n = ledger.len() as int;
        assert forall|a: int, b: int|
            0 <= a < l2.len() && 0 <= b < l2.len() && a != b implies #[trigger] l2[a].repo_name
            != #[trigger] l2[b].repo_name by {
            if a == n {
                assert(l2[b] == ledger[b]);
            } else if b == n {
                assert(l2[a] == ledger[a]);
            } else {
                assert(ledger[a].repo_name != ledger[b].repo_name);
            }
        }
    }
}

/// Whatever step ends and however it went, a ledger whose keys are unique keeps
/// them unique; so does every sequence of steps of every update.
pub proof fn lemma_step_keeps_keys_unique(ledger: Seq<RecordView>, rec: RecordView, step: InstallStep, succeeded: bool)
    requires
        keys_unique(ledger),
    ensures
        keys_unique(ledger_after(ledger, rec, step, succeeded)),
{
    lemma_commit_keeps_keys_unique(ledger, rec);
}

/// A second run against an unchanged release, after the first run installed
/// and recorded it, finds the repository up to date and plans nothing else.
pub proof fn lemma_rerun_is_up_to_date(
    repo: RepoConfig,
    release: GithubRelease,
    ledger: Seq<RecordView>,
    p: PlatformProfile,
    r: UpdatePlan,
)
    requires
        is_plan(repo, release, commit_spec(ledger, record_of(repo.key(), release)), p, r),
    ensures
        r is UpToDate,
{
    lemma_lookup_after_commit(ledger, record_of(repo.key(), release));
}

/// A target pinned to the tag that its record holds is up to date, whatever tag
/// the release reports.
pub proof fn lemma_pinned_tag_is_up_to_date(
    repo: RepoConfig,
    release: GithubRelease,
    ledger: Seq<RecordView>,
    p: PlatformProfile,
    r: UpdatePlan,
)
    requires
        repo.force_tag is Some,
        lookup(ledger, repo.key()) matches Some(rec) && rec.tag == repo.force_tag->0@,
        is_plan(repo, release, ledger, p, r),
    ensures
        r is UpToDate,
{
}

/// When the old install was removed and unpacking the new artifact then fails,
/// the run ends failed and the ledger is the one it started with.
pub proof fn lemma_failed_unpack_keeps_ledger(kind: ArtifactKind, ledger: Seq<RecordView>, rec: RecordView)
    requires
        !(kind is Unsupported),
    ensures
        ({
            let unpack = next_step_spec(kind, true, InstallStep::RemoveOld, true);
            &&& unpack == unpack_step(kind)
            &&& ledger_after(ledger, rec, InstallStep::RemoveOld, true) == ledger
            &&& next_step_spec(kind, true, unpack, false) == InstallStep::Done(UpdateOutcome::Failed)
            &&& ledger_after(ledger, rec, unpack, false) == ledger
        }),
{
}

} // verus!

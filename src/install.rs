//! Where an artifact lands under the install root, and download progress.

use vstd::prelude::*;
use crate::text::{ends_with_seq, str_ends_with};

verus! {

/// Some entry of an archive is a directory.
pub open spec fn any_dir(entry_is_dir: Seq<bool>) -> bool {
    exists|i: int| 0 <= i < entry_is_dir.len() && #[trigger] entry_is_dir[i]
}

/// An archive's name without its `.zip` extension.
pub open spec fn archive_stem(name: Seq<char>) -> Seq<char> {
    if ends_with_seq(name, ".zip"@) {
        name.subrange(0, name.len() - 4)
    } else {
        name
    }
}

/// How an archive is unpacked below the install root.
#[derive(Debug)]
pub struct ExtractLayout {
    /// The archive holds a top-level directory of its own.
    pub sub_foldered: bool,
    /// The directory below the install root to unpack into; `None` for the root itself.
    pub extract_dir: Option<String>,
    /// The unpacked top-level directory to rename to the tool's name, if any.
    pub rename_from: Option<String>,
}

/// The directory below the install root that holds the tool once unpacking
/// and any rename are done.
pub open spec fn installed_dir(layout: ExtractLayout, tool_name: Seq<char>) -> Option<Seq<char>> {
    match layout.rename_from {
        Some(_) => Some(tool_name),
        None => match layout.extract_dir {
            Some(d) => Some(d@),
            None => None,
        },
    }
}

/// `r` is the layout of the archive: see `plan_extract`.
pub open spec fn is_layout(entry_is_dir: Seq<bool>, archive_name: Seq<char>, tool_name: Seq<char>, r: ExtractLayout) -> bool {
    &&& r.sub_foldered == any_dir(entry_is_dir)
    &&& r.sub_foldered ==> (r.extract_dir is None && (r.rename_from matches Some(f) && f@ == archive_stem(archive_name)))
    &&& !r.sub_foldered ==> ((r.extract_dir matches Some(d) && d@ == tool_name) && r.rename_from is None)
}

/// The layout of an archive named `archive_name` whose entries are directories
/// or not as `entry_is_dir` says, installed for the tool `tool_name`. A flat
/// archive is unpacked into the tool's directory; one with directories is
/// unpacked into the install root and its top-level directory, named after the
/// archive, is renamed to the tool's.
pub fn plan_extract(entry_is_dir: &Vec<bool>, archive_name: &str, tool_name: &str) -> (r: ExtractLayout)
    ensures
        is_layout(entry_is_dir@, archive_name@, tool_name@, r),
{
    let mut sub_foldered = false;
    let mut i: usize = 0;
    while i < entry_is_dir.len()
        invariant
            i <= entry_is_dir.len(),
            sub_foldered == exists|j: int| 0 <= j < i && #[trigger] entry_is_dir@[j],
        decreases entry_is_dir.len() - i,
    {
        if entry_is_dir[i] {
            sub_foldered = true;
        }
        i = i + 1;
    }
    if sub_foldered {
        let stem = if str_ends_with(archive_name, ".zip") {
            proof {
                reveal_strlit(".zip");
            }
            let n = archive_name.unicode_len();
            String::from_str(archive_name.substring_char(0, n - 4))
        } else {
            String::from_str(archive_name)
        };
        ExtractLayout { sub_foldered, extract_dir: None, rename_from: Some(stem) }
    } else {
        ExtractLayout { sub_foldered, extract_dir: Some(String::from_str(tool_name)), rename_from: None }
    }
}

/// Whichever layout an archive has, the tool ends in the directory named after
/// it, and a rename step is taken exactly when the archive holds directories.
pub proof fn lemma_layout_normalized(entry_is_dir: Seq<bool>, archive_name: Seq<char>, tool_name: Seq<char>, r: ExtractLayout)
    requires
        is_layout(entry_is_dir, archive_name, tool_name, r),
    ensures
        installed_dir(r, tool_name) == Some(tool_name),
        r.rename_from is Some <==> any_dir(entry_is_dir),
{
}

/// Bytes counted as transferred after a chunk of `chunk_len` bytes, capped at
/// the asset's size.
pub open spec fn progress_spec(downloaded: u64, chunk_len: u64, size: u64) -> int {
    if downloaded + chunk_len <= size {
        downloaded + chunk_len
    } else {
        size as int
    }
}

/// The progress after a chunk of `chunk_len` bytes has arrived.
pub fn advance_progress(downloaded: u64, chunk_len: u64, size: u64) -> (r: u64)
    ensures
        r == progress_spec(downloaded, chunk_len, size),
{
    if chunk_len <= size && downloaded <= size - chunk_len {
        downloaded + chunk_len
    } else {
        size
    }
}

} // verus!

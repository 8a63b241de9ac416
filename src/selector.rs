//! Picks the one asset of a release that fits this machine's platform.

use vstd::prelude::*;
use crate::release::GithubReleaseAsset;
use crate::text::{contains_seq, str_contains};

verus! {

/// The lower-case form of a string, as `str::to_lowercase` gives it.
pub uninterp spec fn lower_of(s: Seq<char>) -> Seq<char>;

/// Relies on `str::to_lowercase`: the result depends on the characters alone.
#[verifier::external_body]
fn lowercase(s: &str) -> (r: String)
    ensures
        r@ == lower_of(s@),
{
    s.to_lowercase()
}

/// The markers that decide whether an asset name fits a platform.
#[derive(Debug, Clone)]
pub struct PlatformProfile {
    pub os_markers: Vec<String>,
    pub arch_markers: Vec<String>,
    pub excluded_markers: Vec<String>,
}

/// Some marker of `markers` stands in `name`.
pub open spec fn has_marker(name: Seq<char>, markers: Seq<String>) -> bool {
    exists|i: int| 0 <= i < markers.len() && contains_seq(name, #[trigger] markers[i]@)
}

/// A name is a candidate when it holds an OS marker and an arch marker and no
/// excluded marker.
pub open spec fn is_candidate(name: Seq<char>, p: PlatformProfile) -> bool {
    has_marker(name, p.os_markers@) && has_marker(name, p.arch_markers@) && !has_marker(
        name,
        p.excluded_markers@,
    )
}

/// A candidate built with the MSVC toolchain.
pub open spec fn is_preferred(name: Seq<char>, p: PlatformProfile) -> bool {
    is_candidate(name, p) && contains_seq(name, "msvc"@)
}

/// `r` is the choice among `names`: the first preferred candidate when there is
/// one, else the first candidate, else none.
pub open spec fn is_selection(names: Seq<Seq<char>>, p: PlatformProfile, r: Option<int>) -> bool {
    match r {
        None => forall|i: int| 0 <= i < names.len() ==> !#[trigger] is_candidate(names[i], p),
        Some(i) => {
            &&& 0 <= i < names.len()
            &&& is_candidate(names[i], p)
            &&& if exists|j: int| 0 <= j < names.len() && #[trigger] is_preferred(names[j], p) {
                is_preferred(names[i], p) && forall|j: int| 0 <= j < i ==> !#[trigger] is_preferred(names[j], p)
            } else {
                forall|j: int| 0 <= j < i ==> !#[trigger] is_candidate(names[j], p)
            }
        },
    }
}

/// The lower-case names of a list of assets.
pub open spec fn lowered_names(assets: Seq<GithubReleaseAsset>) -> Seq<Seq<char>> {
    assets.map_values(|a: GithubReleaseAsset| lower_of(a.name@))
}

/// The choice is a function of the names and the profile: two selections from
/// the same names and profile are the same.
pub proof fn lemma_selection_unique(names: Seq<Seq<char>>, p: PlatformProfile, r1: Option<int>, r2: Option<int>)
    requires
        is_selection(names, p, r1),
        is_selection(names, p, r2),
    ensures
        r1 == r2,
{
    match (r1, r2) {
        (Some(i), Some(j)) => {
            if i < j {
                assert(is_candidate(names[i], p));
            } else if j < i {
                assert(is_candidate(names[j], p));
            }
        },
        (Some(i), None) => {
            assert(is_candidate(names[i], p));
        },
        (None, Some(j)) => {
            assert(is_candidate(names[j], p));
        },
        (None, None) => {},
    }
}

/// Whether some marker of `markers` stands in `name`.
fn any_marker(name: &str, markers: &Vec<String>) -> (r: bool)
    ensures
        r == has_marker(name@, markers@),
{
    let mut i: usize = 0;
    while i < markers.len()
        invariant
            i <= markers.len(),
            forall|j: int| 0 <= j < i ==> !contains_seq(name@, #[trigger] markers@[j]@),
        decreases markers.len() - i,
    {
        if str_contains(name, markers[i].as_str()) {
            return true;
        }
        i = i + 1;
    }
    false
}

impl PlatformProfile {
    /// The profile of a 64-bit Windows machine.
    pub fn windows() -> (r: PlatformProfile)
        ensures
            r.os_markers@.len() == 2,
            r.os_markers@[0]@ == "windows"@,
            r.os_markers@[1]@ == ".exe"@,
            r.arch_markers@.len() == 3,
            r.arch_markers@[0]@ == "64"@,
            r.arch_markers@[1]@ == "x64"@,
            r.arch_markers@[2]@ == "x86_64"@,
            r.excluded_markers@.len() == 3,
            r.excluded_markers@[0]@ == "arm"@,
            r.excluded_markers@[1]@ == "apple"@,
            r.excluded_markers@[2]@ == "linux"@,
    {
        PlatformProfile {
            os_markers: vec![String::from_str("windows"), String::from_str(".exe")],
            arch_markers: vec![String::from_str("64"), String::from_str("x64"), String::from_str("x86_64")],
            excluded_markers: vec![String::from_str("arm"), String::from_str("apple"), String::from_str("linux")],
        }
    }

    /// Whether an already lower-case name is a candidate.
    pub fn matches(&self, name: &str) -> (r: bool)
        ensures
            r == is_candidate(name@, *self),
    {
        any_marker(name, &self.os_markers) && any_marker(name, &self.arch_markers) && !any_marker(
            name,
            &self.excluded_markers,
        )
    }

    /// The position of the chosen name among already lower-case names.
    pub fn select_index(&self, names: &Vec<String>) -> (r: Option<usize>)
        ensures
            is_selection(names@.map_values(|s: String| s@), *self, match r {
                Some(i) => Some(i as int),
                None => None,
            }),
    {
        let ghost ns = names@.map_values(|s: String| s@);
        let mut first: Option<usize> = None;
        let mut i: usize = 0;
        while i < names.len()
            invariant
                ns == names@.map_values(|s: String| s@),
                i <= names.len(),
                forall|j: int| 0 <= j < i ==> !#[trigger] is_preferred(ns[j], *self),
                match first {
                    None => forall|j: int| 0 <= j < i ==> !#[trigger] is_candidate(ns[j], *self),
                    Some(f) => f < i && is_candidate(ns[f as int], *self) && forall|j: int|
                        0 <= j < f ==> !#[trigger] is_candidate(ns[j], *self),
                },
            decreases names.len() - i,
        {
            let name = names[i].as_str();
            assert(ns[i as int] == name@);
            if self.matches(name) {
                if str_contains(name, "msvc") {
                    return Some(i);
                }
                if first.is_none() {
                    first = Some(i);
                }
            }
            i = i + 1;
        }
        first
    }

    /// The asset to install among `assets`: names are compared in lower case.
    pub fn select_asset(&self, assets: &Vec<GithubReleaseAsset>) -> (r: Option<usize>)
        ensures
            is_selection(lowered_names(assets@), *self, match r {
                Some(i) => Some(i as int),
                None => None,
            }),
    {
        let mut names: Vec<String> = Vec::new();
        let mut i: usize = 0;
        while i < assets.len()
            invariant
                i <= assets.len(),
                names@.len() == i,
                forall|j: int| 0 <= j < i ==> #[trigger] names@[j]@ == lower_of(assets@[j].name@),
            decreases assets.len() - i,
        {
            names.push(lowercase(assets[i].name.as_str()));
            i = i + 1;
        }
        proof {
            assert(names@.map_values(|s: String| s@) =~= lowered_names(assets@));
        }
        self.select_index(&names)
    }
}

} // verus!

//! Repository targets and the release descriptors fetched for them.

use vstd::prelude::*;

verus! {

/// Base address of the release-hosting service's API.
pub const API_BASE_URL: &'static str = "https://api.github.com";

/// The media type asked for in the `Accept` header of release queries.
pub const ACCEPT_MEDIA_TYPE: &'static str = "application/vnd.github.v3+json";

/// The client identification sent with every request.
pub const APP_USER_AGENT: &'static str = "wup/0.1.0";

/// The configured list of repositories to track.
#[derive(Debug, Clone)]
pub struct CliConfig {
    pub repos: Vec<RepoConfig>,
}

/// One upstream project to track; `force_tag` pins it to a tag.
#[derive(Debug, Clone)]
pub struct RepoConfig {
    pub owner: String,
    pub name: String,
    pub force_tag: Option<String>,
}

/// One published version of a repository.
#[derive(Debug, Clone)]
pub struct GithubRelease {
    pub release_id: u64,
    pub node_id: String,
    pub tag: String,
    pub name: String,
    pub html_url: String,
    pub assets: Vec<GithubReleaseAsset>,
}

/// One downloadable file attached to a release.
#[derive(Debug, Clone)]
pub struct GithubReleaseAsset {
    pub asset_id: u64,
    pub node_id: String,
    pub name: String,
    pub size: u64,
    pub download_url: String,
}

/// The ledger key of a repository: `owner/name`.
pub open spec fn repo_key_of(owner: Seq<char>, name: Seq<char>) -> Seq<char> {
    owner + seq!['/'] + name
}

/// The pinned tag of a target, as characters.
pub open spec fn pinned_tag(force_tag: Option<String>) -> Option<Seq<char>> {
    match force_tag {
        Some(t) => Some(t@),
        None => None,
    }
}

/// The release path below a repository: `latest`, or `tags/{tag}` when pinned.
pub open spec fn release_selector(force_tag: Option<Seq<char>>) -> Seq<char> {
    match force_tag {
        Some(t) => "tags/"@ + t,
        None => "latest"@,
    }
}

/// The address of the release query for a target.
pub open spec fn release_url_of(owner: Seq<char>, name: Seq<char>, force_tag: Option<Seq<char>>) -> Seq<char> {
    API_BASE_URL@ + "/repos/"@ + owner + "/"@ + name + "/releases/"@ + release_selector(force_tag)
}

impl RepoConfig {
    pub open spec fn key(&self) -> Seq<char> {
        repo_key_of(self.owner@, self.name@)
    }

    /// The ledger key `owner/name` of this target.
    pub fn repo_key(&self) -> (r: String)
        ensures
            r@ == self.key(),
    {
        let mut r = String::from_str(self.owner.as_str());
        r.append("/");
        r.append(self.name.as_str());
        proof {
            reveal_strlit("/");
            assert(r@ =~= self.key());
        }
        r
    }

    /// The address of the release query: the pinned tag's release when
    /// `force_tag` is set, else the latest release.
    pub fn release_url(&self) -> (r: String)
        ensures
            r@ == release_url_of(self.owner@, self.name@, pinned_tag(self.force_tag)),
    {
        let mut r = String::from_str(API_BASE_URL);
        r.append("/repos/");
        r.append(self.owner.as_str());
        r.append("/");
        r.append(self.name.as_str());
        r.append("/releases/");
        match &self.force_tag {
            Some(tag) => {
                r.append("tags/");
                r.append(tag.as_str());
            },
            None => {
                r.append("latest");
            },
        }
        proof {
            assert(r@ =~= release_url_of(self.owner@, self.name@, pinned_tag(self.force_tag)));
        }
        r
    }
}

} // verus!

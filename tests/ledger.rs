use wup::cli::CliCommands;
use wup::ledger::VersionStore;
use wup::release::{GithubRelease, RepoConfig};

fn record(key: &str, id: u64, tag: &str) -> VersionStore {
    VersionStore { repo_name: key.to_string(), release_id: id, node_id: format!("N{}", id), tag: tag.to_string() }
}

fn target(force_tag: Option<&str>) -> RepoConfig {
    RepoConfig { owner: "sharkdp".to_string(), name: "bat".to_string(), force_tag: force_tag.map(|t| t.to_string()) }
}

#[test]
fn record_from_release() {
    let rel = GithubRelease {
        release_id: 42,
        node_id: "RE_kw".to_string(),
        tag: "v0.24.0".to_string(),
        name: "v0.24.0".to_string(),
        html_url: "https://example.invalid".to_string(),
        assets: Vec::new(),
    };
    let v = VersionStore::new(&rel, &target(None));
    assert_eq!(v.repo_name, "sharkdp/bat");
    assert_eq!(v.release_id, 42);
    assert_eq!(v.node_id, "RE_kw");
    assert_eq!(v.tag, "v0.24.0");
}

#[test]
fn write_appends() {
    let mut ledger = vec![record("a/x", 1, "v1")];
    record("b/y", 2, "v2").write(&mut ledger);
    assert_eq!(ledger.len(), 2);
    assert_eq!(ledger[1].repo_name, "b/y");
    assert_eq!(ledger[0].repo_name, "a/x");
}

#[test]
fn get_finds_by_key() {
    let ledger = vec![record("a/x", 1, "v1"), record("b/y", 2, "v2")];
    let found = VersionStore::get(&ledger, "b/y").unwrap();
    assert_eq!(found.release_id, 2);
    assert!(VersionStore::get(&ledger, "b/z").is_none());
    assert!(VersionStore::get(&ledger, "b/").is_none());
    assert!(VersionStore::get(&Vec::new(), "a/x").is_none());
    assert_eq!(VersionStore::position(&ledger, "a/x"), Some(0));
}

#[test]
fn replace_in_place() {
    let mut ledger = vec![record("a/x", 1, "v1"), record("b/y", 2, "v2"), record("c/z", 3, "v3")];
    let old = ledger[1].clone();
    old.replace(record("b/y", 9, "v9"), &mut ledger);
    assert_eq!(ledger.len(), 3);
    assert_eq!(ledger[1].release_id, 9);
    assert_eq!(ledger[1].tag, "v9");
    assert_eq!(ledger[0].tag, "v1");
    assert_eq!(ledger[2].tag, "v3");
}

#[test]
fn release_query_address() {
    assert_eq!(target(None).release_url(), "https://api.github.com/repos/sharkdp/bat/releases/latest");
    assert_eq!(
        target(Some("v0.23.0")).release_url(),
        "https://api.github.com/repos/sharkdp/bat/releases/tags/v0.23.0"
    );
    assert_eq!(target(None).repo_key(), "sharkdp/bat");
}

#[test]
fn subcommand_names() {
    assert_eq!(CliCommands::Config.to_str(), "config");
    assert_eq!(CliCommands::Vstores.to_str(), "vstores");
    assert_eq!(CliCommands::Update.to_str(), "update");
    assert_eq!(CliCommands::from_name("update"), Some(CliCommands::Update));
    assert_eq!(CliCommands::from_name("vstores"), Some(CliCommands::Vstores));
    assert_eq!(CliCommands::from_name("config"), Some(CliCommands::Config));
    assert_eq!(CliCommands::from_name("upgrade"), None);
}

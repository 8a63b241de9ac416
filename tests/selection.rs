use wup::release::GithubReleaseAsset;
use wup::selector::PlatformProfile;
use wup::text::{str_contains, str_ends_with};

fn asset(id: u64, name: &str) -> GithubReleaseAsset {
    GithubReleaseAsset {
        asset_id: id,
        node_id: format!("node-{}", id),
        name: name.to_string(),
        size: 100,
        download_url: format!("https://example.invalid/{}", name),
    }
}

fn assets(names: &[&str]) -> Vec<GithubReleaseAsset> {
    names.iter().enumerate().map(|(i, n)| asset(i as u64, n)).collect()
}

fn strings(v: &[&str]) -> Vec<String> {
    v.iter().map(|s| s.to_string()).collect()
}

fn small_profile() -> PlatformProfile {
    PlatformProfile {
        os_markers: strings(&["windows"]),
        arch_markers: strings(&["x64"]),
        excluded_markers: strings(&["arm", "linux"]),
    }
}

#[test]
fn selection_prefers_msvc_and_is_stable() {
    let list = assets(&["tool-windows-x64.zip", "tool-windows-x64-msvc.zip", "tool-linux-x64.zip"]);
    let p = small_profile();
    let first = p.select_asset(&list);
    assert_eq!(first, Some(1));
    assert_eq!(list[first.unwrap()].name, "tool-windows-x64-msvc.zip");
    for _ in 0..5 {
        assert_eq!(p.select_asset(&list), first);
    }
}

#[test]
fn selection_without_candidate_is_none() {
    let list = assets(&["tool-linux-arm64.tar.gz"]);
    assert_eq!(small_profile().select_asset(&list), None);
}

#[test]
fn selection_of_empty_release_is_none() {
    assert_eq!(small_profile().select_asset(&Vec::new()), None);
}

#[test]
fn selection_takes_first_candidate_without_msvc() {
    let list = assets(&["tool-linux-x64.zip", "tool-windows-x64.zip", "tool-windows-x64-gnu.zip"]);
    assert_eq!(small_profile().select_asset(&list), Some(1));
}

#[test]
fn selection_compares_names_in_lower_case() {
    let list = assets(&["Tool-Linux-X64.zip", "TOOL-WINDOWS-X64.ZIP"]);
    assert_eq!(small_profile().select_asset(&list), Some(1));
}

#[test]
fn selection_msvc_must_also_be_candidate() {
    let list = assets(&["tool-windows-x64.zip", "tool-linux-x64-msvc.zip"]);
    assert_eq!(small_profile().select_asset(&list), Some(0));
}

#[test]
fn selection_counts_an_asset_once_whatever_its_markers() {
    let list = assets(&["tool-windows-x86_64-x64.exe", "tool-windows-64-msvc.zip"]);
    assert_eq!(PlatformProfile::windows().select_asset(&list), Some(1));
}

#[test]
fn windows_profile_markers() {
    let p = PlatformProfile::windows();
    assert_eq!(p.os_markers, strings(&["windows", ".exe"]));
    assert_eq!(p.arch_markers, strings(&["64", "x64", "x86_64"]));
    assert_eq!(p.excluded_markers, strings(&["arm", "apple", "linux"]));
}

#[test]
fn windows_profile_excludes_other_platforms() {
    let list = assets(&[
        "ripgrep-14.1.0-aarch64-apple-darwin.tar.gz",
        "ripgrep-14.1.0-x86_64-unknown-linux-musl.tar.gz",
        "ripgrep-14.1.0-x86_64-pc-windows-gnu.zip",
        "ripgrep-14.1.0-x86_64-pc-windows-msvc.zip",
        "ripgrep-14.1.0-aarch64-pc-windows-msvc.zip",
    ]);
    assert_eq!(PlatformProfile::windows().select_asset(&list), Some(3));
}

#[test]
fn select_index_on_lowered_names() {
    let p = small_profile();
    assert_eq!(p.select_index(&strings(&["a-windows-x64", "b-windows-x64-msvc"])), Some(1));
    assert_eq!(p.select_index(&strings(&["a-windows-arm64-x64"])), None);
    assert!(p.matches("tool-windows-x64.zip"));
    assert!(!p.matches("tool-windows-x86.zip"));
}

#[test]
fn substring_search() {
    assert!(str_contains("tool-windows-x64", "windows"));
    assert!(str_contains("abc", ""));
    assert!(str_contains("", ""));
    assert!(!str_contains("", "a"));
    assert!(!str_contains("win", "windows"));
    assert!(str_contains("aaab", "aab"));
    assert!(str_contains("größe-x64", "e-x"));
}

#[test]
fn suffix_test() {
    assert!(str_ends_with("tool.zip", ".zip"));
    assert!(!str_ends_with("tool.zip.sig", ".zip"));
    assert!(!str_ends_with("zip", ".zip"));
    assert!(str_ends_with("tool", ""));
}

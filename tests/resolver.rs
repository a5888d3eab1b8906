use modpack_installer::{
    is_installer_asset, is_portable_asset, newest_release_index, repo_display_name,
    resolve_asset_url, timestamp_key_of, InstallError, Release, ReleaseAsset,
};

fn asset(name: &str) -> ReleaseAsset {
    ReleaseAsset {
        name: name.to_string(),
        browser_download_url: format!("https://example.com/{}", name),
    }
}

fn release(published_at: &str, names: &[&str]) -> Release {
    Release {
        published_at: published_at.to_string(),
        assets: names.iter().map(|n| asset(n)).collect(),
    }
}

#[test]
fn timestamp_key_reads_digits_in_order() {
    assert_eq!(timestamp_key_of("2024-05-06T07:08:09Z"), Some(20240506070809));
    assert_eq!(timestamp_key_of("2024-05-06 07:08:09Z"), None);
    assert_eq!(timestamp_key_of("2024-05-06T07:08:09"), None);
    assert_eq!(timestamp_key_of(""), None);
}

#[test]
fn newest_release_is_latest_timestamp() {
    let rels = vec![
        release("2023-01-01T00:00:00Z", &["a"]),
        release("2024-03-01T00:00:00Z", &["b"]),
        release("2024-02-29T23:59:59Z", &["c"]),
    ];
    assert_eq!(newest_release_index(&rels), Some(1));
}

#[test]
fn newest_release_ties_pick_the_last() {
    let rels = vec![
        release("2024-03-01T00:00:00Z", &["a"]),
        release("2024-03-01T00:00:00Z", &["b"]),
        release("2020-01-01T00:00:00Z", &["c"]),
    ];
    assert_eq!(newest_release_index(&rels), Some(1));
}

#[test]
fn unparsable_timestamps_are_skipped() {
    let rels = vec![release("garbage", &["a"]), release("2021-01-01T00:00:00Z", &["b"])];
    assert_eq!(newest_release_index(&rels), Some(1));
    let none = vec![release("garbage", &["a"])];
    assert_eq!(newest_release_index(&none), None);
}

#[test]
fn resolve_picks_matching_asset_of_newest_release() {
    let rels = vec![
        release("2024-01-01T00:00:00Z", &["old-MSVC-Portable.zip"]),
        release("2024-06-01T00:00:00Z", &["new-arm64.zip", "new-MSVC-Portable.zip", "new-MSVC-Portable-2.zip"]),
    ];
    let url = resolve_asset_url(&rels, &|s: &str| s.contains("Portable") && !s.contains("arm64"));
    assert_eq!(url.unwrap(), "https://example.com/new-MSVC-Portable.zip");
}

#[test]
fn resolve_not_found_when_newest_has_no_match() {
    let rels = vec![
        release("2024-01-01T00:00:00Z", &["wanted.zip"]),
        release("2024-06-01T00:00:00Z", &["other.zip"]),
    ];
    let r = resolve_asset_url(&rels, &|s: &str| s == "wanted.zip");
    assert!(matches!(r, Err(InstallError::NotFound)));
}

#[test]
fn resolve_not_found_on_empty_index() {
    let rels: Vec<Release> = Vec::new();
    let r = resolve_asset_url(&rels, &|_s: &str| true);
    assert!(matches!(r, Err(InstallError::NotFound)));
}

#[test]
fn resolve_matches_names_verbatim() {
    let rels = vec![release("2024-06-01T00:00:00Z", &["PORTABLE.zip"])];
    let r = resolve_asset_url(&rels, &|s: &str| s.contains("portable"));
    assert!(matches!(r, Err(InstallError::NotFound)));
}

#[test]
fn asset_filters() {
    assert!(is_portable_asset("PrismLauncher-Windows-MSVC-Portable-9.2.zip"));
    assert!(!is_portable_asset("PrismLauncher-Windows-MSVC-arm64-Portable-9.2.zip"));
    assert!(!is_portable_asset("PrismLauncher-Windows-MinGW-w64-Portable-9.2.zip"));
    assert!(is_installer_asset("PrismLauncher-Windows-MSVC-Setup-9.2.exe"));
    assert!(!is_installer_asset("PrismLauncher-Windows-MSVC-arm64-Setup-9.2.exe"));
    assert!(!is_installer_asset("PrismLauncher-Windows-MSVC-Portable-9.2.zip"));
}

#[test]
fn repo_display_name_is_last_part() {
    assert_eq!(repo_display_name("PrismLauncher/PrismLauncher"), "PrismLauncher");
    assert_eq!(repo_display_name("plain"), "plain");
    assert_eq!(repo_display_name("a/b/"), "");
}

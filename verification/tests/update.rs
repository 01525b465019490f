use romm_tui::update::{is_mock_release, mock_update_notice, update_result_notice, ApplyUpdateOutcome};
use romm_tui::update::{
    binary_name_from_path, changelog_url, checksums_download_url, current_binary_name,
    github_release_asset_key, is_latest_newer, normalize_version_tag, parse_checksums,
    sha256_hex, shipped_binary_file_name, update_status_from_release, verify_archive_checksum,
    ApplyUpdateOptions, UpdateError,
};

#[test]
fn version_compare_handles_patch_and_minor() {
    assert!(is_latest_newer("0.25.1", "0.25.0"));
    assert!(is_latest_newer("0.26.0", "0.25.9"));
    assert!(!is_latest_newer("0.25.0", "0.25.0"));
    assert!(!is_latest_newer("0.24.9", "0.25.0"));
}

#[test]
fn version_compare_handles_v_prefix() {
    assert!(is_latest_newer("v1.2.4", "1.2.3"));
}

#[test]
fn version_compare_handles_prerelease_to_stable() {
    assert!(is_latest_newer("0.25.0", "0.25.0-alpha"));
}

#[test]
fn unparseable_versions_are_never_newer() {
    assert!(!is_latest_newer("not-a-version", "0.1.0"));
    assert!(!is_latest_newer("1.0.0", "garbage"));
}

#[test]
fn normalize_strips_whitespace_and_every_leading_v() {
    assert_eq!(normalize_version_tag("  vv1.2.3 \n"), "1.2.3");
    assert_eq!(normalize_version_tag("1.0"), "1.0");
}

#[test]
fn parse_checksums_reads_sha256sum_format() {
    let parsed = parse_checksums("abc123  romm-cli-linux-x86_64.tar.gz\n");
    assert_eq!(
        parsed.get("romm-cli-linux-x86_64.tar.gz"),
        Some(&"abc123".to_string())
    );
}

#[test]
fn parse_checksums_lowercases_strips_star_and_skips_junk() {
    let parsed = parse_checksums("ABCDEF  *a.bin\r\n\n   \nno-double-space a.zip\nff00  a.bin\n");
    assert_eq!(parsed.get("a.bin"), Some(&"ff00".to_string()));
    assert_eq!(parsed.get("a.zip"), None);
    assert_eq!(parsed.len(), 1);
}

#[test]
fn verify_archive_checksum_matches() {
    let digest = sha256_hex(b"hello");
    assert_eq!(
        digest,
        "2cf24dba5fb0a30e26e83b2ac5b9e29e1b161e5c1fa7425e73043362938b9824"
    );
    let checksums = format!("{digest}  sample.tar.gz\n");
    assert!(verify_archive_checksum(b"hello", "sample.tar.gz", &checksums).is_ok());
}

#[test]
fn verify_archive_checksum_rejects_mismatch() {
    let checksums = "deadbeef  sample.tar.gz\n";
    let r = verify_archive_checksum(b"hello", "sample.tar.gz", checksums);
    assert!(matches!(r, Err(UpdateError::ChecksumMismatch { .. })));
}

#[test]
fn verify_archive_checksum_reports_missing_entry() {
    let r = verify_archive_checksum(b"hello", "other.tar.gz", "deadbeef  sample.tar.gz\n");
    assert!(matches!(r, Err(UpdateError::MissingChecksumEntry { .. })));
}

#[test]
fn binary_name_from_path_strips_windows_exe_extension() {
    assert_eq!(
        binary_name_from_path(r"C:\tools\romm-tui.exe").as_deref(),
        Some("romm-tui")
    );
}

#[test]
fn binary_name_from_path_handles_unix_and_empty() {
    assert_eq!(binary_name_from_path("/usr/bin/romm-cli").as_deref(), Some("romm-cli"));
    assert_eq!(binary_name_from_path("/usr/bin/").as_deref(), None);
    assert_eq!(binary_name_from_path(".EXE").as_deref(), None);
}

#[test]
fn current_binary_name_is_available() {
    assert!(!current_binary_name(None).is_empty());
    assert_eq!(current_binary_name(None), "romm-cli");
    assert_eq!(current_binary_name(Some("/opt/x/romm-tui")), "romm-tui");
}

#[test]
fn github_release_asset_key_supports_windows() {
    assert_eq!(
        github_release_asset_key("windows", "x86_64").ok(),
        Some("windows-x86_64")
    );
    assert!(matches!(
        github_release_asset_key("freebsd", "x86_64"),
        Err(UpdateError::UnsupportedPlatform { .. })
    ));
}

#[test]
fn status_strips_tag_prefix_and_compares() {
    let s = update_status_from_release("0.1.0", "v0.2.0", "https://example.com/r");
    assert_eq!(s.latest_version, "0.2.0");
    assert_eq!(s.release_tag, "v0.2.0");
    assert!(s.should_update);
    assert_eq!(s.changelog_url, changelog_url());
}

#[test]
fn options_default_confirms_nothing() {
    let o = ApplyUpdateOptions::default();
    assert!(o.no_confirm && !o.show_output && !o.show_progress);
    assert!(o.target_version_tag.is_none());
}

#[test]
fn shipped_name_and_checksums_asset() {
    assert_eq!(shipped_binary_file_name("romm-cli", ".exe"), "romm-cli.exe");
    let assets = vec![
        ("a.tar.gz".to_string(), "u1".to_string()),
        ("checksums.txt".to_string(), "u2".to_string()),
    ];
    assert_eq!(checksums_download_url(&assets).ok(), Some("u2".to_string()));
    assert!(checksums_download_url(&assets[..1]).is_err());
}

#[test]
fn update_prompt_notices() {
    assert!(is_mock_release("9.9.9-mock"));
    assert!(!is_mock_release("9.9.9"));
    assert_eq!(mock_update_notice(), "Mock update successful! (No files were changed)");
    assert_eq!(
        update_result_notice(&Ok(ApplyUpdateOutcome::Updated("1.2.3".to_string()))),
        Ok("Updated to 1.2.3. Restart romm-cli to use the new version.".to_string())
    );
    assert_eq!(
        update_result_notice(&Ok(ApplyUpdateOutcome::UpToDate("1.2.3".to_string()))),
        Ok("Already up to date (`1.2.3`).".to_string())
    );
    assert_eq!(
        update_result_notice(&Err("network down".to_string())),
        Err("Update failed: network down".to_string())
    );
}

use csharp_toolchain::release::asset_name;
use csharp_toolchain::release::parse_feed_search_version;
use csharp_toolchain::release::resolve_version;
use csharp_toolchain::release::PrerequisiteNotifier;
use csharp_toolchain::release::Release;
use csharp_toolchain::release::ReleaseAsset;
use csharp_toolchain::release::ResolutionError;

#[test]
fn asset_name_linux_x86_64() {
    assert_eq!(
        asset_name("linux", "x86_64"),
        Ok("csharp-language-server-x86_64-unknown-linux-gnu.tar.gz".to_string())
    );
}

#[test]
fn asset_name_linux_aarch64() {
    assert_eq!(
        asset_name("linux", "aarch64"),
        Ok("csharp-language-server-aarch64-unknown-linux-gnu.tar.gz".to_string())
    );
}

#[test]
fn asset_name_macos_x86_64() {
    assert_eq!(
        asset_name("macos", "x86_64"),
        Ok("csharp-language-server-x86_64-apple-darwin.tar.gz".to_string())
    );
}

#[test]
fn asset_name_macos_aarch64() {
    assert_eq!(
        asset_name("macos", "aarch64"),
        Ok("csharp-language-server-aarch64-apple-darwin.tar.gz".to_string())
    );
}

#[test]
fn asset_name_windows_x86_64() {
    assert_eq!(
        asset_name("windows", "x86_64"),
        Ok("csharp-language-server-x86_64-pc-windows-msvc.zip".to_string())
    );
}

#[test]
fn asset_name_windows_aarch64() {
    assert_eq!(
        asset_name("windows", "aarch64"),
        Ok("csharp-language-server-aarch64-pc-windows-msvc.zip".to_string())
    );
}

#[test]
fn asset_name_rejects_unknown_arch() {
    assert_eq!(
        asset_name("linux", "riscv64"),
        Err(ResolutionError::UnsupportedArch)
    );
}

#[test]
fn asset_name_rejects_unknown_os() {
    assert_eq!(
        asset_name("freebsd", "x86_64"),
        Err(ResolutionError::UnsupportedOs)
    );
}

fn sample_release() -> Release {
    Release {
        tag_name: "v5.0.0".to_string(),
        assets: vec![
            ReleaseAsset {
                name: "csharp-language-server-aarch64-apple-darwin.tar.gz".to_string(),
                download_url: "https://example.invalid/darwin.tar.gz".to_string(),
                digest: None,
            },
            ReleaseAsset {
                name: "csharp-language-server-x86_64-unknown-linux-gnu.tar.gz".to_string(),
                download_url: "https://example.invalid/linux.tar.gz".to_string(),
                digest: Some("abc123".to_string()),
            },
        ],
    }
}

#[test]
fn resolve_version_picks_matching_asset() {
    let release = sample_release();
    let v = resolve_version(&release, "linux", "x86_64").unwrap();
    assert_eq!(v.name, "v5.0.0");
    assert_eq!(v.url, "https://example.invalid/linux.tar.gz");
    assert_eq!(v.digest, Some("abc123".to_string()));
}

#[test]
fn resolve_version_fails_without_matching_asset() {
    let release = sample_release();
    assert!(matches!(
        resolve_version(&release, "windows", "x86_64"),
        Err(ResolutionError::NoMatchingAsset)
    ));
}

#[test]
fn resolve_version_rejects_unsupported_platform_before_looking() {
    let release = Release {
        tag_name: "v5.0.0".to_string(),
        assets: Vec::new(),
    };
    assert!(matches!(
        resolve_version(&release, "plan9", "x86_64"),
        Err(ResolutionError::UnsupportedOs)
    ));
}

#[test]
fn resolve_version_takes_first_of_equal_names() {
    let mut release = sample_release();
    release.assets.push(ReleaseAsset {
        name: "csharp-language-server-x86_64-unknown-linux-gnu.tar.gz".to_string(),
        download_url: "https://example.invalid/shadowed.tar.gz".to_string(),
        digest: None,
    });
    let v = resolve_version(&release, "linux", "x86_64").unwrap();
    assert_eq!(v.url, "https://example.invalid/linux.tar.gz");
}

#[test]
fn feed_search_reads_first_package_version() {
    let out = r#"{"searchResult":[{"packages":[{"latestVersion":" 5.0.1 "}]}]}"#;
    assert_eq!(parse_feed_search_version(true, out), Ok("5.0.1".to_string()));
}

#[test]
fn feed_search_fails_when_command_failed() {
    assert_eq!(
        parse_feed_search_version(false, "{}"),
        Err(ResolutionError::FeedUnavailable)
    );
}

#[test]
fn feed_search_fails_on_missing_field() {
    let out = r#"{"searchResult":[{"packages":[{}]}]}"#;
    assert_eq!(
        parse_feed_search_version(true, out),
        Err(ResolutionError::VersionFieldMissing)
    );
}

#[test]
fn feed_search_fails_on_blank_version() {
    let out = r#"{"searchResult":[{"packages":[{"latestVersion":"   "}]}]}"#;
    assert_eq!(
        parse_feed_search_version(true, out),
        Err(ResolutionError::VersionFieldMissing)
    );
}

#[test]
fn feed_search_fails_on_unparsable_output() {
    assert_eq!(
        parse_feed_search_version(true, "no json here"),
        Err(ResolutionError::VersionFieldMissing)
    );
}

#[test]
fn notifier_fires_exactly_once() {
    let mut n = PrerequisiteNotifier::new();
    assert!(n.claim_warning());
    assert!(!n.claim_warning());
    assert!(!n.claim_warning());
}

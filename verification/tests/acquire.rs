use csharp_toolchain::acquire::archive_kind;
use csharp_toolchain::acquire::descriptor_for;
use csharp_toolchain::acquire::server_binary_name;
use csharp_toolchain::acquire::tmp_dir_name;
use csharp_toolchain::acquire::user_installed_binary;
use csharp_toolchain::acquire::verify_digest;
use csharp_toolchain::acquire::version_dir_name;
use csharp_toolchain::acquire::Acquisition;
use csharp_toolchain::acquire::AcquireAction;
use csharp_toolchain::acquire::AcquireError;
use csharp_toolchain::acquire::AcquireEvent;
use csharp_toolchain::acquire::AcquirePhase;
use csharp_toolchain::acquire::ArchiveKind;
use csharp_toolchain::cache::CacheRecord;
use csharp_toolchain::release::ToolchainVersion;

fn version_with_digest(digest: Option<&str>) -> ToolchainVersion {
    ToolchainVersion {
        name: "v5.0.0".to_string(),
        url: "https://example.invalid/server.tar.gz".to_string(),
        digest: digest.map(|d| d.to_string()),
    }
}

#[test]
fn directory_names_follow_the_tag() {
    assert_eq!(version_dir_name("v5.0.0"), "roslyn-v5.0.0");
    assert_eq!(tmp_dir_name("v5.0.0"), "roslyn-v5.0.0-tmp");
}

#[test]
fn binary_name_gets_suffix_only_on_windows() {
    assert_eq!(server_binary_name(false, ".exe"), "csharp-language-server");
    assert_eq!(server_binary_name(true, ".exe"), "csharp-language-server.exe");
}

#[test]
fn archive_kind_follows_url_extension() {
    assert_eq!(archive_kind("https://x.invalid/a.zip"), ArchiveKind::Zip);
    assert_eq!(archive_kind("https://x.invalid/a.tar.gz"), ArchiveKind::TarGz);
    assert_eq!(archive_kind("https://x.invalid/a.zip.tar.gz"), ArchiveKind::TarGz);
}

#[test]
fn digest_mismatch_is_an_error() {
    assert_eq!(
        verify_digest(&Some("abc".to_string()), &Some("def".to_string())),
        Err(AcquireError::DigestMismatch)
    );
    assert_eq!(verify_digest(&Some("abc".to_string()), &Some("abc".to_string())), Ok(()));
    assert_eq!(verify_digest(&None, &Some("abc".to_string())), Ok(()));
    assert_eq!(verify_digest(&Some("abc".to_string()), &None), Ok(()));
}

#[test]
fn user_installed_binary_launches_bare() {
    let b = user_installed_binary(Some("/usr/bin/csharp-language-server".to_string())).unwrap();
    assert_eq!(b.path, "/usr/bin/csharp-language-server");
    assert!(b.arguments.is_empty());
    assert!(b.env.is_none());
    assert!(user_installed_binary(None).is_none());
}

#[test]
fn descriptor_carries_plain_launch() {
    let b = descriptor_for("/cache/roslyn-v5.0.0/csharp-language-server".to_string());
    assert_eq!(b.path, "/cache/roslyn-v5.0.0/csharp-language-server");
    assert!(b.arguments.is_empty());
    assert!(b.env.is_none());
}

#[test]
fn machine_reuses_valid_live_cache_without_downloading() {
    let mut m = Acquisition::new(version_with_digest(Some("abc")));
    assert!(matches!(m.initial_action(), AcquireAction::ReadMetadata));
    let rec = CacheRecord::new(Some("abc".to_string()));
    let a = m.on_event(AcquireEvent::MetadataRead(Some(rec)));
    assert!(matches!(a, AcquireAction::RunLivenessCheck));
    assert_eq!(m.phase, AcquirePhase::Liveness);
    let a = m.on_event(AcquireEvent::LivenessChecked(true));
    assert!(matches!(a, AcquireAction::Deliver));
    assert_eq!(m.phase, AcquirePhase::Done);
}

#[test]
fn machine_redownloads_on_recorded_digest_mismatch() {
    let mut m = Acquisition::new(version_with_digest(Some("abc")));
    let rec = CacheRecord::new(Some("stale".to_string()));
    let a = m.on_event(AcquireEvent::MetadataRead(Some(rec)));
    assert!(matches!(a, AcquireAction::DownloadArchive(ArchiveKind::TarGz)));
    assert_eq!(m.phase, AcquirePhase::Fetch);
}

#[test]
fn machine_downloads_after_failed_liveness() {
    let mut m = Acquisition::new(version_with_digest(None));
    let rec = CacheRecord::new(None);
    let a = m.on_event(AcquireEvent::MetadataRead(Some(rec)));
    assert!(matches!(a, AcquireAction::RunLivenessCheck));
    let a = m.on_event(AcquireEvent::LivenessChecked(false));
    assert!(matches!(a, AcquireAction::DownloadArchive(ArchiveKind::TarGz)));
    assert_eq!(m.phase, AcquirePhase::Fetch);
}

#[test]
fn machine_walks_the_whole_install_pipeline() {
    let mut m = Acquisition::new(version_with_digest(Some("abc")));
    let a = m.on_event(AcquireEvent::MetadataRead(None));
    assert!(matches!(a, AcquireAction::DownloadArchive(ArchiveKind::TarGz)));
    let a = m.on_event(AcquireEvent::Downloaded(Ok(Some("abc".to_string()))));
    assert!(matches!(a, AcquireAction::LocateBinary));
    let a = m.on_event(AcquireEvent::BinaryLocated(Some(
        "nested/csharp-language-server".to_string(),
    )));
    assert!(matches!(a, AcquireAction::PromoteBinary(p) if p == "nested/csharp-language-server"));
    let a = m.on_event(AcquireEvent::Promoted(Ok(())));
    assert!(matches!(a, AcquireAction::EvictSiblings));
    let a = m.on_event(AcquireEvent::Evicted);
    assert!(
        matches!(a, AcquireAction::PersistRecord(rec)
            if rec.metadata_version == 1 && rec.digest == Some("abc".to_string()))
    );
    let a = m.on_event(AcquireEvent::RecordWritten(Ok(())));
    assert!(matches!(a, AcquireAction::FinishInstall));
    let a = m.on_event(AcquireEvent::Finished);
    assert!(matches!(a, AcquireAction::Deliver));
    assert_eq!(m.phase, AcquirePhase::Done);
}

#[test]
fn machine_aborts_on_transferred_digest_mismatch() {
    let mut m = Acquisition::new(version_with_digest(Some("abc")));
    let a = m.on_event(AcquireEvent::MetadataRead(None));
    assert!(matches!(a, AcquireAction::DownloadArchive(_)));
    let a = m.on_event(AcquireEvent::Downloaded(Ok(Some("tampered".to_string()))));
    assert!(matches!(a, AcquireAction::Abort(AcquireError::DigestMismatch)));
    assert_eq!(m.phase, AcquirePhase::Failed);
}

#[test]
fn machine_aborts_when_binary_is_missing_from_archive() {
    let mut m = Acquisition::new(version_with_digest(None));
    let a = m.on_event(AcquireEvent::MetadataRead(None));
    assert!(matches!(a, AcquireAction::DownloadArchive(_)));
    let a = m.on_event(AcquireEvent::Downloaded(Ok(None)));
    assert!(matches!(a, AcquireAction::LocateBinary));
    let a = m.on_event(AcquireEvent::BinaryLocated(None));
    assert!(matches!(a, AcquireAction::Abort(AcquireError::BinaryNotFound)));
    assert_eq!(m.phase, AcquirePhase::Failed);
}

#[test]
fn machine_aborts_on_download_failure() {
    let mut m = Acquisition::new(version_with_digest(None));
    let _ = m.on_event(AcquireEvent::MetadataRead(None));
    let a = m.on_event(AcquireEvent::Downloaded(Err(AcquireError::DownloadFailed)));
    assert!(matches!(a, AcquireAction::Abort(AcquireError::DownloadFailed)));
    assert_eq!(m.phase, AcquirePhase::Failed);
}

use csharp_toolchain::cache::eviction_plan;
use csharp_toolchain::cache::pick_cached_version_dir;
use csharp_toolchain::cache::plan_validation;
use csharp_toolchain::cache::resolve_liveness;
use csharp_toolchain::cache::CacheDecision;
use csharp_toolchain::cache::CacheRecord;
use csharp_toolchain::cache::CacheValidation;
use csharp_toolchain::cache::DirEntry;
use csharp_toolchain::cache::CACHE_METADATA_VERSION;

#[test]
fn new_record_carries_format_version_and_digest() {
    let rec = CacheRecord::new(Some("abc".to_string()));
    assert_eq!(rec.metadata_version, CACHE_METADATA_VERSION);
    assert_eq!(rec.digest, Some("abc".to_string()));
}

#[test]
fn matching_digests_defer_to_liveness() {
    let rec = CacheRecord::new(Some("abc".to_string()));
    let p = plan_validation(&Some(rec), &Some("abc".to_string()));
    assert_eq!(p, CacheValidation::RunLivenessCheck);
    assert_eq!(resolve_liveness(p, true), CacheDecision::UseCached);
}

#[test]
fn mismatched_digests_force_download_regardless_of_liveness() {
    let p = plan_validation(
        &Some(CacheRecord::new(Some("abc".to_string()))),
        &Some("def".to_string()),
    );
    assert_eq!(p, CacheValidation::Redownload);
    assert_eq!(resolve_liveness(p, true), CacheDecision::Download);
    assert_eq!(resolve_liveness(p, false), CacheDecision::Download);
}

#[test]
fn missing_record_forces_download() {
    let p = plan_validation(&None, &Some("abc".to_string()));
    assert_eq!(p, CacheValidation::Redownload);
}

#[test]
fn missing_digest_on_either_side_defers_to_liveness() {
    let p = plan_validation(&Some(CacheRecord::new(None)), &Some("abc".to_string()));
    assert_eq!(p, CacheValidation::RunLivenessCheck);
    let p = plan_validation(&Some(CacheRecord::new(Some("abc".to_string()))), &None);
    assert_eq!(p, CacheValidation::RunLivenessCheck);
    assert_eq!(resolve_liveness(p, false), CacheDecision::Download);
}

#[test]
fn eviction_plan_dooms_every_sibling() {
    let entries = vec![
        "roslyn-1.0.0".to_string(),
        "roslyn-2.0.0".to_string(),
        "stray-file".to_string(),
    ];
    let doomed = eviction_plan(&entries, &"roslyn-2.0.0".to_string());
    assert_eq!(
        doomed,
        vec!["roslyn-1.0.0".to_string(), "stray-file".to_string()]
    );
}

#[test]
fn eviction_plan_keeps_nothing_but_the_new_version() {
    let entries = vec!["roslyn-3.1.0".to_string()];
    let doomed = eviction_plan(&entries, &"roslyn-3.1.0".to_string());
    assert!(doomed.is_empty());
}

#[test]
fn pick_cached_version_dir_takes_last_directory() {
    let entries = vec![
        DirEntry {
            name: "roslyn-1.0.0".to_string(),
            is_dir: true,
        },
        DirEntry {
            name: "metadata".to_string(),
            is_dir: false,
        },
        DirEntry {
            name: "roslyn-2.0.0".to_string(),
            is_dir: true,
        },
    ];
    assert_eq!(pick_cached_version_dir(&entries), Some(2));
}

#[test]
fn pick_cached_version_dir_without_directories() {
    let entries = vec![DirEntry {
        name: "metadata".to_string(),
        is_dir: false,
    }];
    assert_eq!(pick_cached_version_dir(&entries), None);
}

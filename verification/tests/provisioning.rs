use jdk_provision::ProvisioningError;
use jdk_provision::cache::CacheStore;
use jdk_provision::digest::sha256_digest;
use jdk_provision::extract::interpret_unpack;
use jdk_provision::extract::plan_extraction;
use jdk_provision::hex::hex_encode;
use jdk_provision::pipeline::DownloadOutcome;
use jdk_provision::pipeline::Pipeline;
use jdk_provision::pipeline::PipelineAction;
use jdk_provision::pipeline::Stage;

fn release_document_for(content: &[u8]) -> Vec<u8> {
    let digest = String::from_utf8(hex_encode(&sha256_digest(content))).unwrap();
    format!(r#"[{{"binaries": [{{"package": {{"checksum": "{digest}"}}}}]}}]"#).into_bytes()
}

const CATALOG: &[u8] = br#"{"available_releases": [8, 11, 16, 17, 18, 19, 20, 21]}"#;

#[test]
fn test_cache_hit_short_circuits() {
    // A pre-seeded cache answers the lookup with a hit: the run is done at
    // once and never asks for a catalog query or a download.
    let mut p = Pipeline::new(17, 1);
    assert_eq!(p.next_action(), PipelineAction::CheckCache);
    p.on_cache_checked(Some(true));
    assert_eq!(p.stage, Stage::Done);
    assert_eq!(p.next_action(), PipelineAction::Stop);
    let entry = p.entry.unwrap();
    assert_eq!(entry.version, 17);
    assert_eq!(entry.name, b"jdk-17.tar.gz".to_vec());
    assert!(entry.present);
}

#[test]
fn test_unavailable_version_fails_before_download() {
    let mut p = Pipeline::new(999, 1);
    p.on_cache_checked(Some(false));
    assert_eq!(p.next_action(), PipelineAction::QueryCatalog);
    p.on_catalog_response(Some(&CATALOG.to_vec()));
    assert_eq!(p.stage, Stage::Failed(ProvisioningError::VersionNotOffered));
    assert_eq!(p.next_action(), PipelineAction::Stop);
}

#[test]
fn test_full_acquisition_and_idempotent_rerun() {
    let content = b"pretend this is a jdk archive".to_vec();
    let mut store = CacheStore::new();

    let mut p = Pipeline::new(21, 41);
    p.on_cache_checked(Some(store.has_version(21)));
    assert_eq!(p.stage, Stage::CheckingCatalog);
    p.on_catalog_response(Some(&CATALOG.to_vec()));
    assert_eq!(p.stage, Stage::Downloading);
    assert_eq!(p.next_action(), PipelineAction::FetchArtifact);
    assert_eq!(p.staging_name_for(), b"jdk-21.tar.gz.part-41".to_vec());
    p.on_download_finished(DownloadOutcome::Delivered);
    assert_eq!(p.stage, Stage::FetchingChecksums);
    p.on_checksums_response(Some(&release_document_for(&content)));
    assert_eq!(p.stage, Stage::Verifying);
    assert_eq!(p.next_action(), PipelineAction::ReadStaged);
    p.on_staged_read(Some(&content));
    assert_eq!(p.stage, Stage::Verified);
    assert_eq!(p.next_action(), PipelineAction::CommitArtifact);
    p.commit(&mut store);
    assert_eq!(p.stage, Stage::Done);
    assert_eq!(p.next_action(), PipelineAction::Stop);
    assert!(store.has_version(21));
    let first_entry = p.entry.unwrap();

    // The second run sees the committed version and short-circuits: a pure
    // cache hit, no download, and the same entry.
    let mut rerun = Pipeline::new(21, 42);
    rerun.on_cache_checked(Some(store.has_version(21)));
    assert_eq!(rerun.stage, Stage::Done);
    let second_entry = rerun.entry.unwrap();
    assert_eq!(first_entry.version, second_entry.version);
    assert_eq!(first_entry.name, second_entry.name);
    assert_eq!(first_entry.present, second_entry.present);
}

#[test]
fn test_tampered_artifact_is_rejected_and_never_committed() {
    let content = b"original artifact bytes".to_vec();
    let mut store = CacheStore::new();

    let mut p = Pipeline::new(17, 9);
    p.on_cache_checked(Some(false));
    p.on_catalog_response(Some(&CATALOG.to_vec()));
    p.on_download_finished(DownloadOutcome::Delivered);
    p.on_checksums_response(Some(&release_document_for(&content)));

    // The bytes are flipped after download but before verification.
    let mut tampered = content.clone();
    tampered[5] ^= 0x20;
    p.on_staged_read(Some(&tampered));
    assert_eq!(p.stage, Stage::Failed(ProvisioningError::ChecksumMismatch));

    // The staged bytes must be discarded before the run stops, and a failed
    // run never commits.
    assert_eq!(p.next_action(), PipelineAction::DiscardStaging);
    p.commit(&mut store);
    assert!(!store.has_version(17));
    p.on_staging_discarded();
    assert_eq!(p.next_action(), PipelineAction::Stop);
    assert!(p.entry.is_none());
}

#[test]
fn test_concurrent_runs_commit_one_artifact() {
    // Two racing runs for one version stage under distinct names; both may
    // reach commit, and the cache still holds exactly one entry for the
    // version, the deterministic one.
    let content = b"the artifact both runs fetched".to_vec();
    let mut store = CacheStore::new();
    let mut first = Pipeline::new(21, 1);
    let mut second = Pipeline::new(21, 2);
    assert_ne!(first.staging_name_for(), second.staging_name_for());

    for p in [&mut first, &mut second] {
        p.on_cache_checked(Some(false));
        p.on_catalog_response(Some(&CATALOG.to_vec()));
        p.on_download_finished(DownloadOutcome::Delivered);
        p.on_checksums_response(Some(&release_document_for(&content)));
        p.on_staged_read(Some(&content));
        assert_eq!(p.stage, Stage::Verified);
    }
    first.commit(&mut store);
    second.commit(&mut store);
    assert!(store.has_version(21));
    let e1 = first.entry.unwrap();
    let e2 = second.entry.unwrap();
    assert_eq!(e1.name, e2.name);
    assert_eq!(e1.name, b"jdk-21.tar.gz".to_vec());
}

#[test]
fn test_transport_failure_is_terminal() {
    let mut p = Pipeline::new(17, 1);
    p.on_cache_checked(Some(false));
    p.on_catalog_response(Some(&CATALOG.to_vec()));
    p.on_download_finished(DownloadOutcome::TransportFailed);
    assert_eq!(p.stage, Stage::Failed(ProvisioningError::DownloadFailed));
    // The downloader already deleted its partial file.
    assert_eq!(p.next_action(), PipelineAction::Stop);
}

#[test]
fn test_download_timeout_is_terminal() {
    let mut p = Pipeline::new(17, 1);
    p.on_cache_checked(Some(false));
    p.on_catalog_response(Some(&CATALOG.to_vec()));
    p.on_download_finished(DownloadOutcome::TimedOut);
    assert_eq!(p.stage, Stage::Failed(ProvisioningError::DownloadTimedOut));
}

#[test]
fn test_unreachable_catalog_is_reported() {
    let mut p = Pipeline::new(17, 1);
    p.on_cache_checked(Some(false));
    p.on_catalog_response(None);
    assert_eq!(p.stage, Stage::Failed(ProvisioningError::CatalogUnreachable));
}

#[test]
fn test_malformed_catalog_is_reported() {
    let mut p = Pipeline::new(17, 1);
    p.on_cache_checked(Some(false));
    p.on_catalog_response(Some(&b"not a registry document".to_vec()));
    assert_eq!(p.stage, Stage::Failed(ProvisioningError::CatalogMalformed));
}

#[test]
fn test_unreachable_checksums_discard_staging() {
    let mut p = Pipeline::new(17, 1);
    p.on_cache_checked(Some(false));
    p.on_catalog_response(Some(&CATALOG.to_vec()));
    p.on_download_finished(DownloadOutcome::Delivered);
    p.on_checksums_response(None);
    assert_eq!(p.stage, Stage::Failed(ProvisioningError::CatalogUnreachable));
    assert_eq!(p.next_action(), PipelineAction::DiscardStaging);
}

#[test]
fn test_unreadable_cache_root_is_io_unavailable() {
    let mut p = Pipeline::new(17, 1);
    p.on_cache_checked(None);
    assert_eq!(p.stage, Stage::Failed(ProvisioningError::IOUnavailable));
}

#[test]
fn test_out_of_turn_report_changes_nothing() {
    let mut p = Pipeline::new(17, 1);
    p.on_download_finished(DownloadOutcome::Delivered);
    assert_eq!(p.stage, Stage::CheckingCache);
    p.on_staged_read(Some(&b"bytes".to_vec()));
    assert_eq!(p.stage, Stage::CheckingCache);
}

#[test]
fn test_extraction_rules() {
    assert_eq!(plan_extraction(false), Err(ProvisioningError::TargetMissing));
    assert!(plan_extraction(true).is_ok());
    assert!(interpret_unpack(true).unwrap().unpacked);
    assert!(matches!(
        interpret_unpack(false),
        Err(ProvisioningError::ExtractionFailed)
    ));
}

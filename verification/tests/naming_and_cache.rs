use jdk_provision::cache::CacheStore;
use jdk_provision::endpoints::assets_url;
use jdk_provision::endpoints::download_url;
use jdk_provision::endpoints::versions_endpoint;
use jdk_provision::naming::artifact_name;
use jdk_provision::naming::staging_name;

#[test]
fn test_artifact_name_is_deterministic() {
    assert_eq!(artifact_name(17), b"jdk-17.tar.gz".to_vec());
    assert_eq!(artifact_name(8), b"jdk-8.tar.gz".to_vec());
    assert_eq!(artifact_name(21), artifact_name(21));
}

#[test]
fn test_staging_name_carries_run_identifier() {
    assert_eq!(staging_name(21, 7), b"jdk-21.tar.gz.part-7".to_vec());
    assert_eq!(staging_name(21, 40107), b"jdk-21.tar.gz.part-40107".to_vec());
}

#[test]
fn test_staging_names_of_concurrent_runs_differ() {
    assert_ne!(staging_name(21, 1), staging_name(21, 2));
    assert_ne!(staging_name(21, 1), artifact_name(21));
}

#[test]
fn test_cache_lookup_and_commit() {
    let mut store = CacheStore::new();
    assert_eq!(store.path_for(17), b"jdk-17.tar.gz".to_vec());
    assert!(!store.has_version(17));
    let entry = store.commit(17);
    assert_eq!(entry.version, 17);
    assert_eq!(entry.name, b"jdk-17.tar.gz".to_vec());
    assert!(entry.present);
    assert!(store.has_version(17));
    assert!(!store.has_version(21));
}

#[test]
fn test_recommit_changes_nothing() {
    let mut store = CacheStore::new();
    let first = store.commit(21);
    let second = store.commit(21);
    assert_eq!(first.version, second.version);
    assert_eq!(first.name, second.name);
    assert_eq!(first.present, second.present);
    assert!(store.has_version(21));
}

#[test]
fn test_registry_endpoints() {
    assert_eq!(
        versions_endpoint(),
        b"https://api.adoptium.net/v3/info/available_releases".to_vec()
    );
    assert_eq!(
        download_url(17),
        b"https://api.adoptium.net/v3/binary/latest/17/ga/linux/x64/jdk/hotspot/normal/eclipse"
            .to_vec()
    );
    assert_eq!(
        assets_url(8),
        b"https://api.adoptium.net/v3/assets/latest/8/hotspot".to_vec()
    );
}

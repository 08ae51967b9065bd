use jdk_provision::ProvisioningError;
use jdk_provision::catalog::parse_checksums;
use jdk_provision::catalog::parse_versions;

#[test]
fn test_parse_versions_from_registry_document() {
    let body = br#"{"available_lts_releases": [8, 11, 17, 21], "available_releases": [8, 11, 16, 17, 18, 19, 20, 21], "most_recent_lts": 21}"#;
    let versions = parse_versions(body).unwrap();
    assert_eq!(versions, vec![8, 11, 16, 17, 18, 19, 20, 21]);
}

#[test]
fn test_parse_versions_tolerates_whitespace() {
    let body = b"{ \"available_releases\" :\n\t[ 17 ,\r\n 21 ] }";
    assert_eq!(parse_versions(body).unwrap(), vec![17, 21]);
}

#[test]
fn test_parse_versions_empty_list() {
    let body = br#"{"available_releases": []}"#;
    assert_eq!(parse_versions(body).unwrap(), Vec::<u64>::new());
}

#[test]
fn test_parse_versions_missing_key_is_malformed() {
    let body = br#"{"releases": [17, 21]}"#;
    assert_eq!(parse_versions(body), Err(ProvisioningError::CatalogMalformed));
}

#[test]
fn test_parse_versions_unterminated_list_is_malformed() {
    let body = br#"{"available_releases": [17, 21"#;
    assert_eq!(parse_versions(body), Err(ProvisioningError::CatalogMalformed));
}

#[test]
fn test_parse_versions_non_numeric_item_is_malformed() {
    let body = br#"{"available_releases": [17, "21"]}"#;
    assert_eq!(parse_versions(body), Err(ProvisioningError::CatalogMalformed));
}

#[test]
fn test_parse_versions_oversized_number_is_malformed() {
    let body = br#"{"available_releases": [123456789]}"#;
    assert_eq!(parse_versions(body), Err(ProvisioningError::CatalogMalformed));
}

#[test]
fn test_parse_versions_empty_body_is_malformed() {
    assert_eq!(parse_versions(b""), Err(ProvisioningError::CatalogMalformed));
}

const DIGEST_A: &str = "ba7816bf8f01cfea414140de5dae2223b00361a396177a9cb410ff61f20015ad";
const DIGEST_B: &str = "E3B0C44298FC1C149AFBF4C8996FB92427AE41E4649B934CA495991B7852B855";

#[test]
fn test_parse_checksums_from_release_document() {
    let body = format!(
        r#"[{{"release_name": "jdk-21.0.1+12", "binaries": [{{"os": "linux", "package": {{"name": "a.tar.gz", "checksum": "{DIGEST_A}", "checksum_link": "https://example.invalid/a.sha256.txt"}}}}, {{"os": "mac", "package": {{"checksum": "{DIGEST_B}"}}}}]}}]"#
    );
    let checksums = parse_checksums(body.as_bytes()).unwrap();
    assert_eq!(checksums.len(), 2);
    assert_eq!(checksums[0], DIGEST_A.as_bytes().to_vec());
    assert_eq!(checksums[1], DIGEST_B.as_bytes().to_vec());
}

#[test]
fn test_parse_checksums_requires_array_shape() {
    let body = format!(r#"{{"checksum": "{DIGEST_A}"}}"#);
    assert_eq!(
        parse_checksums(body.as_bytes()),
        Err(ProvisioningError::CatalogMalformed)
    );
}

#[test]
fn test_parse_checksums_empty_set_is_malformed() {
    let body = br#"[{"release_name": "jdk-21", "binaries": []}]"#;
    assert_eq!(parse_checksums(body), Err(ProvisioningError::CatalogMalformed));
}

#[test]
fn test_parse_checksums_wrong_length_digest_is_malformed() {
    let body = br#"[{"binaries": [{"package": {"checksum": "abc123"}}]}]"#;
    assert_eq!(parse_checksums(body), Err(ProvisioningError::CatalogMalformed));
}

#[test]
fn test_release_info_carries_version_and_checksums() {
    let body = format!(r#"[{{"binaries": [{{"package": {{"checksum": "{DIGEST_A}"}}}}]}}]"#);
    let info = jdk_provision::catalog::release_info(21, body.as_bytes()).unwrap();
    assert_eq!(info.version, 21);
    assert_eq!(info.checksums, vec![DIGEST_A.as_bytes().to_vec()]);
    assert!(matches!(
        jdk_provision::catalog::release_info(21, b"[]"),
        Err(ProvisioningError::CatalogMalformed)
    ));
}

#[test]
fn test_parse_checksums_non_hex_digest_is_malformed() {
    let body = format!(
        r#"[{{"binaries": [{{"package": {{"checksum": "{}"}}}}]}}]"#,
        "z".repeat(64)
    );
    assert_eq!(
        parse_checksums(body.as_bytes()),
        Err(ProvisioningError::CatalogMalformed)
    );
}

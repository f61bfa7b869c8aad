use mcs::catalog::{all_ids, effective_id, resolve_from_manifest, resolve_from_metadata, Fetched};
use mcs::errors::McsError;
use mcs::manifest::{VersionEntry, VersionManifest, VersionMetadata};

fn entry(id: &str, url: &str) -> VersionEntry {
    VersionEntry { id: id.to_string(), metadata_url: url.to_string() }
}

fn fixture() -> VersionManifest {
    VersionManifest {
        latest_release_id: "1.20.1".to_string(),
        entries: vec![
            entry("1.20.1", "https://meta.example/1.20.1.json"),
            entry("1.19.4", "https://meta.example/1.19.4.json"),
            entry("1.18.2", "https://meta.example/1.18.2.json"),
        ],
    }
}

#[test]
fn test_latest_resolves_to_release_pointer() {
    let m = fixture();
    assert_eq!(effective_id(&m, "latest"), "1.20.1");
    let pending = resolve_from_manifest("latest", Fetched::Document(fixture())).unwrap();
    assert_eq!(pending.requested_token, "latest");
    assert_eq!(pending.effective_id, "1.20.1");
    assert_eq!(pending.metadata_url, "https://meta.example/1.20.1.json");
}

#[test]
fn test_explicit_token_passes_through() {
    let m = fixture();
    assert_eq!(effective_id(&m, "1.19.4"), "1.19.4");
    let pending = resolve_from_manifest("1.19.4", Fetched::Document(fixture())).unwrap();
    assert_eq!(pending.effective_id, "1.19.4");
    assert_eq!(pending.metadata_url, "https://meta.example/1.19.4.json");
}

#[test]
fn test_unique_id_returns_its_artifact_url() {
    let pending = resolve_from_manifest("1.18.2", Fetched::Document(fixture())).unwrap();
    assert_eq!(pending.metadata_url, "https://meta.example/1.18.2.json");
    let md = VersionMetadata {
        server_artifact_url: Some("https://dl.example/1.18.2/server.jar".to_string()),
    };
    let resolved = resolve_from_metadata(pending, Fetched::Document(md)).unwrap();
    assert_eq!(resolved.requested_token, "1.18.2");
    assert_eq!(resolved.effective_id, "1.18.2");
    assert_eq!(resolved.artifact_url, "https://dl.example/1.18.2/server.jar");
}

#[test]
fn test_absent_version_not_found() {
    let r = resolve_from_manifest("9.9.9", Fetched::Document(fixture()));
    assert_eq!(r, Err(McsError::VersionNotFound("9.9.9".to_string())));
}

#[test]
fn test_latest_pointer_absent_is_not_found() {
    let m = VersionManifest { latest_release_id: "2.0.0".to_string(), entries: vec![] };
    let r = resolve_from_manifest("latest", Fetched::Document(m));
    assert_eq!(r, Err(McsError::VersionNotFound("2.0.0".to_string())));
}

#[test]
fn test_duplicate_ids_first_occurrence_wins() {
    let m = VersionManifest {
        latest_release_id: "1.0".to_string(),
        entries: vec![entry("1.0", "https://meta.example/first.json"), entry(
            "1.0",
            "https://meta.example/second.json",
        )],
    };
    let pending = resolve_from_manifest("1.0", Fetched::Document(m)).unwrap();
    assert_eq!(pending.metadata_url, "https://meta.example/first.json");
}

#[test]
fn test_manifest_unavailable() {
    let r = resolve_from_manifest("latest", Fetched::<VersionManifest>::Unavailable);
    assert_eq!(r, Err(McsError::CatalogUnavailable));
}

#[test]
fn test_manifest_malformed() {
    let r = resolve_from_manifest("latest", Fetched::<VersionManifest>::Malformed);
    assert_eq!(r, Err(McsError::CatalogMalformed));
}

#[test]
fn test_metadata_missing_artifact_url() {
    let pending = resolve_from_manifest("1.20.1", Fetched::Document(fixture())).unwrap();
    let md = VersionMetadata { server_artifact_url: None };
    let r = resolve_from_metadata(pending, Fetched::Document(md));
    assert_eq!(r, Err(McsError::ArtifactUrlMissing));
}

#[test]
fn test_metadata_unavailable() {
    let pending = resolve_from_manifest("1.20.1", Fetched::Document(fixture())).unwrap();
    let r = resolve_from_metadata(pending, Fetched::<VersionMetadata>::Unavailable);
    assert_eq!(r, Err(McsError::CatalogUnavailable));
}

#[test]
fn test_metadata_malformed() {
    let pending = resolve_from_manifest("1.20.1", Fetched::Document(fixture())).unwrap();
    let r = resolve_from_metadata(pending, Fetched::<VersionMetadata>::Malformed);
    assert_eq!(r, Err(McsError::CatalogMalformed));
}

#[test]
fn test_all_ids_in_catalog_order() {
    let ids = all_ids(&fixture());
    assert_eq!(ids, vec!["1.20.1".to_string(), "1.19.4".to_string(), "1.18.2".to_string()]);
}

#[test]
fn test_error_messages_are_single_line() {
    let errors = vec![
        McsError::CatalogUnavailable,
        McsError::CatalogMalformed,
        McsError::VersionNotFound("x".to_string()),
        McsError::ArtifactUrlMissing,
        McsError::DownloadError,
        McsError::DownloadIncomplete,
        McsError::InstanceAlreadyExists("x".to_string()),
        McsError::InstanceNotFound("x".to_string()),
        McsError::IoError,
    ];
    for e in errors {
        let msg = e.message();
        assert!(!msg.is_empty());
        assert!(!msg.contains('\n'));
    }
    assert_eq!(
        McsError::VersionNotFound("x".to_string()).message(),
        "no such version in the catalog"
    );
}

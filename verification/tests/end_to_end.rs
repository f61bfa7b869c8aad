use mcs::args::{Action, Args};
use mcs::catalog::{resolve_from_manifest, resolve_from_metadata, Fetched};
use mcs::download::assemble_download;
use mcs::manifest::{VersionEntry, VersionManifest, VersionMetadata};
use mcs::store::{artifact_path, InstanceRecord, StoreSnapshot};

// The whole `create("survival", "latest")` flow on fixture documents:
// manifest {"latest":{"release":"1.20.1"},"versions":[{"id":"1.20.1","url":M1}]},
// metadata at M1 carrying artifact URL A.
#[test]
fn test_create_survival_latest_end_to_end() {
    let m1 = "https://meta.example/1.20.1.json";
    let a = "https://dl.example/1.20.1/server.jar";
    let manifest = VersionManifest {
        latest_release_id: "1.20.1".to_string(),
        entries: vec![VersionEntry { id: "1.20.1".to_string(), metadata_url: m1.to_string() }],
    };

    // The base directory starts without the instance.
    let store = StoreSnapshot { records: vec![] };
    assert!(store.check_absent("survival").is_ok());

    // Resolution asks for the metadata at M1 and nothing else.
    let pending = resolve_from_manifest("latest", Fetched::Document(manifest)).unwrap();
    assert_eq!(pending.metadata_url, m1);

    // The metadata document at M1 yields the artifact URL A.
    let metadata = VersionMetadata { server_artifact_url: Some(a.to_string()) };
    let resolved = resolve_from_metadata(pending, Fetched::Document(metadata)).unwrap();
    assert_eq!(resolved.artifact_url, a);
    assert_eq!(resolved.effective_id, "1.20.1");

    // The artifact stream lands, complete, at <base>/survival/server.jar.
    let payload: Vec<u8> = vec![0x50, 0x4b, 0x03, 0x04, 0x00, 0x01];
    let chunks = vec![payload[..4].to_vec(), payload[4..].to_vec()];
    let data = assemble_download(&chunks, Some(payload.len() as u64)).unwrap();
    assert_eq!(data, payload);
    assert_eq!(
        artifact_path("/home/user/.mcservers", "survival"),
        "/home/user/.mcservers/survival/server.jar"
    );

    // Once the artifact is in place, the listing includes the instance.
    let store = StoreSnapshot {
        records: vec![InstanceRecord { name: "survival".to_string(), has_artifact: true }],
    };
    let names = store.installed_names();
    assert_eq!(names, vec!["survival".to_string()]);
}

// One action per invocation; a missing version is supplied as the
// "latest" sentinel before the action is built.
#[test]
fn test_command_model_carries_one_action() {
    let args = Args {
        action: Action::Create { name: "survival".to_string(), version: "latest".to_string() },
    };
    match args.action {
        Action::Create { name, version } => {
            assert_eq!(name, "survival");
            assert_eq!(version, "latest");
        }
        _ => panic!("expected a create action"),
    }
    assert_ne!(Args { action: Action::List }, Args { action: Action::Versions });
}

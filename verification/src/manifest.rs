use vstd::prelude::*;

verus! {

/// One version known to the catalog: its id and the location of its
/// per-version metadata document.
#[derive(Clone, Debug, PartialEq, Eq)]
pub struct VersionEntry {
    pub id: String,
    pub metadata_url: String,
}

/// An immutable snapshot of the remote catalog: the entries in catalog
/// order plus the current release pointer. Ids are expected unique;
/// where they are not, the first occurrence in catalog order wins.
#[derive(Clone, Debug, PartialEq, Eq)]
pub struct VersionManifest {
    pub latest_release_id: String,
    pub entries: Vec<VersionEntry>,
}

/// What the resolver reads from a per-version metadata document: the
/// server-artifact URL, if the document carried one.
#[derive(Clone, Debug, PartialEq, Eq)]
pub struct VersionMetadata {
    pub server_artifact_url: Option<String>,
}

/// A fully resolved request: the token the user supplied, the concrete
/// id it stands for, and where the artifact can be downloaded.
#[derive(Clone, Debug, PartialEq, Eq)]
pub struct ResolvedVersion {
    pub requested_token: String,
    pub effective_id: String,
    pub artifact_url: String,
}

} // verus!

use vstd::prelude::*;

use crate::errors::McsError;
use crate::manifest::{ResolvedVersion, VersionEntry, VersionManifest, VersionMetadata};

verus! {

/// The token that stands for "whatever the catalog currently calls its
/// release".
pub open spec fn latest_sentinel() -> Seq<char> {
    "latest"@
}

/// The id a token resolves against: the manifest's release pointer for
/// the "latest" sentinel, the token itself otherwise.
pub open spec fn spec_effective_id(m: &VersionManifest, token: Seq<char>) -> Seq<char> {
    if token == latest_sentinel() {
        m.latest_release_id@
    } else {
        token
    }
}

/// Whether some entry carries `id`.
pub open spec fn manifest_has_id(entries: Seq<VersionEntry>, id: Seq<char>) -> bool {
    exists|i: int| 0 <= i < entries.len() && entries[i].id@ == id
}

/// Whether entry `i` is the one an exact, case-sensitive linear scan
/// for `id` stops at: it matches, and no earlier entry does.
pub open spec fn is_first_match(entries: Seq<VersionEntry>, id: Seq<char>, i: int) -> bool {
    &&& 0 <= i < entries.len()
    &&& entries[i].id@ == id
    &&& forall|j: int| 0 <= j < i ==> entries[j].id@ != id
}

/// Substitutes the release pointer for the "latest" sentinel; any other
/// token is already the effective id.
pub fn effective_id(m: &VersionManifest, token: &str) -> (r: String)
    ensures
        r@ == spec_effective_id(m, token@),
{
    let t: String = token.to_owned();
    let sentinel: String = "latest".to_owned();
    if t == sentinel {
        m.latest_release_id.clone()
    } else {
        t
    }
}

/// Linear scan for `id` over the manifest entries; returns the index of
/// the first match, or `None` when no entry carries `id`.
pub fn find_entry(m: &VersionManifest, id: &String) -> (r: Option<usize>)
    ensures
        match r {
            Some(i) => is_first_match(m.entries@, id@, i as int),
            None => !manifest_has_id(m.entries@, id@),
        },
{
    let n = m.entries.len();
    let mut k: usize = 0;
    while k < n
        invariant
            n == m.entries.len(),
            k <= n,
            forall|j: int| 0 <= j < k ==> m.entries@[j].id@ != id@,
        decreases n - k,
    {
        if m.entries[k].id == *id {
            return Some(k);
        }
        k += 1;
    }
    None
}

/// The outcome of fetching and decoding one remote document, as the
/// transport layer hands it to the resolver: the document could not be
/// fetched, it did not have the expected shape, or it decoded cleanly.
pub enum Fetched<T> {
    Unavailable,
    Malformed,
    Document(T),
}

/// A resolution that has located its catalog entry but not yet read the
/// per-version metadata. Holding one is the only way to learn a
/// metadata location, so no metadata fetch can precede a successful
/// manifest lookup.
#[derive(Clone, Debug, PartialEq, Eq)]
pub struct PendingResolution {
    pub requested_token: String,
    pub effective_id: String,
    pub metadata_url: String,
}

/// First half of resolution: maps a manifest fetch outcome and a token
/// to the catalog entry to pursue. Transport failure is
/// `CatalogUnavailable`, a misshapen document `CatalogMalformed`, and a
/// manifest without the effective id `VersionNotFound` carrying that id.
pub fn resolve_from_manifest(token: &str, fetched: Fetched<VersionManifest>) -> (r: Result<
    PendingResolution,
    McsError,
>)
    ensures
        fetched is Unavailable ==> (r matches Err(e) && e is CatalogUnavailable),
        fetched is Malformed ==> (r matches Err(e) && e is CatalogMalformed),
        fetched matches Fetched::Document(m) ==> ({
            let eff = spec_effective_id(&m, token@);
            &&& manifest_has_id(m.entries@, eff) ==> (r matches Ok(p) && p.requested_token@
                == token@ && p.effective_id@ == eff && (exists|i: int|
                is_first_match(m.entries@, eff, i) && p.metadata_url@
                    == m.entries@[i].metadata_url@))
            &&& !manifest_has_id(m.entries@, eff) ==> (r matches Err(e) && e
                matches McsError::VersionNotFound(v) && v@ == eff)
        }),
{
    match fetched {
        Fetched::Unavailable => Err(McsError::CatalogUnavailable),
        Fetched::Malformed => Err(McsError::CatalogMalformed),
        Fetched::Document(m) => {
            let eff = effective_id(&m, token);
            match find_entry(&m, &eff) {
                Some(i) => {
                    proof {
                        assert(is_first_match(m.entries@, spec_effective_id(&m, token@), i as int));
                    }
                    Ok(
                        PendingResolution {
                            requested_token: token.to_owned(),
                            effective_id: eff,
                            metadata_url: m.entries[i].metadata_url.clone(),
                        },
                    )
                },
                None => Err(McsError::VersionNotFound(eff)),
            }
        },
    }
}

/// Second half of resolution: reads the server-artifact URL out of the
/// metadata fetch outcome. Transport failure is `CatalogUnavailable`, a
/// misshapen document `CatalogMalformed`, and a document without the
/// expected field `ArtifactUrlMissing`.
pub fn resolve_from_metadata(pending: PendingResolution, fetched: Fetched<VersionMetadata>) -> (r:
    Result<ResolvedVersion, McsError>)
    ensures
        fetched is Unavailable ==> (r matches Err(e) && e is CatalogUnavailable),
        fetched is Malformed ==> (r matches Err(e) && e is CatalogMalformed),
        fetched matches Fetched::Document(md) ==> ({
            &&& md.server_artifact_url is None ==> (r matches Err(e) && e is ArtifactUrlMissing)
            &&& md.server_artifact_url matches Some(u) ==> (r matches Ok(rv) && rv.requested_token@
                == pending.requested_token@ && rv.effective_id@ == pending.effective_id@
                && rv.artifact_url@ == u@)
        }),
{
    match fetched {
        Fetched::Unavailable => Err(McsError::CatalogUnavailable),
        Fetched::Malformed => Err(McsError::CatalogMalformed),
        Fetched::Document(md) => match md.server_artifact_url {
            None => Err(McsError::ArtifactUrlMissing),
            Some(url) => Ok(
                ResolvedVersion {
                    requested_token: pending.requested_token,
                    effective_id: pending.effective_id,
                    artifact_url: url,
                },
            ),
        },
    }
}

/// All catalog ids, in catalog order.
pub fn all_ids(m: &VersionManifest) -> (r: Vec<String>)
    ensures
        r@.len() == m.entries@.len(),
        forall|i: int| 0 <= i < r@.len() ==> r@[i]@ == m.entries@[i].id@,
{
    let mut r: Vec<String> = Vec::new();
    let n = m.entries.len();
    let mut k: usize = 0;
    while k < n
        invariant
            n == m.entries.len(),
            k <= n,
            r@.len() == k,
            forall|i: int| 0 <= i < k ==> r@[i]@ == m.entries@[i].id@,
        decreases n - k,
    {
        r.push(m.entries[k].id.clone());
        k += 1;
    }
    r
}

/// The "latest" sentinel always resolves to the manifest's current
/// release pointer, for any manifest.
pub proof fn lemma_latest_follows_release_pointer(m: &VersionManifest)
    ensures
        spec_effective_id(m, latest_sentinel()) == m.latest_release_id@,
{
}

/// An id that occurs in the manifest exactly once is matched at its own
/// entry and at no other: first-match selection is unambiguous there,
/// so resolution reads that entry's metadata location and no other.
pub proof fn lemma_unique_id_selects_its_entry(entries: Seq<VersionEntry>, id: Seq<char>, i: int)
    requires
        0 <= i < entries.len(),
        entries[i].id@ == id,
        forall|j: int| 0 <= j < entries.len() && j != i ==> entries[j].id@ != id,
    ensures
        is_first_match(entries, id, i),
        forall|k: int| is_first_match(entries, id, k) ==> k == i,
{
}

/// An id absent from the manifest has no match at all, so resolution
/// can only fail on it and never reaches a metadata location.
pub proof fn lemma_absent_id_has_no_match(entries: Seq<VersionEntry>, id: Seq<char>)
    requires
        !manifest_has_id(entries, id),
    ensures
        forall|k: int| !is_first_match(entries, id, k),
{
}

} // verus!

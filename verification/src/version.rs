//! The game versions that the version manifest lists.
use vstd::prelude::*;

use crate::text::str_eq;

verus! {

/// The kind of a game version.
#[derive(Clone, Copy, Debug, PartialEq, Eq, Structural)]
pub enum VersionType {
    Release,
    Snapshot,
    OldBeta,
    OldAlpha,
}

/// One game version of the manifest. Times are nanoseconds since the Unix epoch.
#[derive(Debug)]
pub struct VersionMetadata {
    /// A unique identifier of the version, for example `1.20.1` or `23w33a`.
    pub id: String,
    pub version_type: VersionType,
    /// A direct link to the detailed metadata file for this version.
    pub url: String,
    pub uploaded_time: i128,
    pub release_time: i128,
    pub sha1: String,
    pub compliance_level: u32,
}

/// The newest release and snapshot.
#[derive(Debug)]
pub struct LatestVersion {
    pub release: String,
    pub snapshot: String,
}

/// The version manifest.
#[derive(Debug)]
pub struct VersionsManifest {
    pub latest: LatestVersion,
    pub versions: Vec<VersionMetadata>,
}

impl VersionMetadata {
    /// An equal copy.
    pub fn duplicate(&self) -> (r: Self)
        ensures
            r == *self,
    {
        VersionMetadata {
            id: self.id.clone(),
            version_type: self.version_type,
            url: self.url.clone(),
            uploaded_time: self.uploaded_time,
            release_time: self.release_time,
            sha1: self.sha1.clone(),
            compliance_level: self.compliance_level,
        }
    }

    /// The first version of `manifest` whose id is `id`.
    pub fn from_id(manifest: &VersionsManifest, id: &str) -> (r: Option<Self>)
        ensures
            r matches Some(v) ==> exists|i: int|
                0 <= i < manifest.versions@.len() && #[trigger] manifest.versions@[i] == v && v.id@ == id@
                && forall|k: int| 0 <= k < i ==> (#[trigger] manifest.versions@[k]).id@ != id@,
            r is None ==> forall|k: int| 0 <= k < manifest.versions@.len() ==> (#[trigger] manifest.versions@[k]).id@ != id@,
    {
        let mut i: usize = 0;
        while i < manifest.versions.len()
            invariant
                i <= manifest.versions.len(),
                forall|k: int| 0 <= k < i ==> (#[trigger] manifest.versions@[k]).id@ != id@,
            decreases manifest.versions.len() - i,
        {
            if str_eq(manifest.versions[i].id.as_str(), id) {
                let v = manifest.versions[i].duplicate();
                assert(manifest.versions@[i as int] == v);
                return Some(v);
            }
            i = i + 1;
        }
        None
    }

    /// The manifest's newest release.
    pub fn latest_release(manifest: &VersionsManifest) -> (r: Option<Self>)
        ensures
            r matches Some(v) ==> exists|i: int|
                0 <= i < manifest.versions@.len() && #[trigger] manifest.versions@[i] == v && v.id@ == manifest.latest.release@
                && forall|k: int| 0 <= k < i ==> (#[trigger] manifest.versions@[k]).id@ != manifest.latest.release@,
            r is None ==> forall|k: int| 0 <= k < manifest.versions@.len() ==> (#[trigger] manifest.versions@[k]).id@ != manifest.latest.release@,
    {
        Self::from_id(manifest, manifest.latest.release.as_str())
    }

    /// The manifest's newest snapshot.
    pub fn latest_snapshot(manifest: &VersionsManifest) -> (r: Option<Self>)
        ensures
            r matches Some(v) ==> exists|i: int|
                0 <= i < manifest.versions@.len() && #[trigger] manifest.versions@[i] == v && v.id@ == manifest.latest.snapshot@
                && forall|k: int| 0 <= k < i ==> (#[trigger] manifest.versions@[k]).id@ != manifest.latest.snapshot@,
            r is None ==> forall|k: int| 0 <= k < manifest.versions@.len() ==> (#[trigger] manifest.versions@[k]).id@ != manifest.latest.snapshot@,
    {
        Self::from_id(manifest, manifest.latest.snapshot.as_str())
    }
}

} // verus!

//! The top-level version manifest: all known versions and which of them is
//! the latest.

use vstd::prelude::*;

verus! {

/// The release channel of a version.
#[derive(Debug, Clone, Copy)]
pub enum VersionType {
    Release,
    Snapshot,
    OldBeta,
    OldAlpha,
}

/// The name a release channel carries as the `version_type` launch
/// parameter.
pub open spec fn spec_version_type_name(t: VersionType) -> Seq<char> {
    match t {
        VersionType::Release => "release"@,
        VersionType::Snapshot => "snapshot"@,
        VersionType::OldBeta => "beta"@,
        VersionType::OldAlpha => "alpha"@,
    }
}

impl VersionType {
    /// The channel's name as a launch parameter value.
    pub fn as_parameter(&self) -> (result: String)
        ensures
            result@ == spec_version_type_name(*self),
    {
        match self {
            VersionType::Release => "release".to_owned(),
            VersionType::Snapshot => "snapshot".to_owned(),
            VersionType::OldBeta => "beta".to_owned(),
            VersionType::OldAlpha => "alpha".to_owned(),
        }
    }
}

/// The identifiers of the latest release and snapshot versions.
#[derive(Debug)]
pub struct LatestVersions {
    pub release: String,
    pub snapshot: String,
}

/// One entry of the version manifest, identifier included.
#[derive(Debug)]
pub struct FullVersionInfo {
    pub id: String,
    pub release_type: VersionType,
    pub url: String,
    pub time: String,
    pub release_time: String,
    pub sha1: String,
    pub compliance_level: usize,
}

/// One version's manifest entry, keyed elsewhere by its identifier.
#[derive(Debug)]
pub struct VersionInfo {
    pub release_type: VersionType,
    pub url: String,
    pub time: String,
    pub release_time: String,
    pub sha1: String,
    pub compliance_level: usize,
}

/// The whole version manifest.
#[derive(Debug)]
pub struct VersionList {
    pub latest: LatestVersions,
    pub versions: Vec<FullVersionInfo>,
}

} // verus!

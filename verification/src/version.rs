//! Per-version metadata: downloads, libraries, arguments, and the asset
//! index reference, plus the filter deciding which libraries belong on the
//! current platform.

use vstd::prelude::*;

use crate::arguments::ArgumentList;
use crate::features::FeatureSet;
use crate::platform::Platform;
use crate::rules::{spec_evaluate, RuleList};
use crate::version_list::VersionType;

verus! {

/// The JVM and game argument lists of a version.
#[derive(Debug)]
pub struct Arguments {
    pub game: ArgumentList,
    pub jvm: ArgumentList,
}

/// The reference to a version's asset index document.
#[derive(Debug)]
pub struct AssetIndex {
    pub id: String,
    pub sha1: String,
    pub size: usize,
    pub total_size: usize,
    pub url: String,
}

/// One downloadable file: content hash, size, and location.
#[derive(Debug)]
pub struct Download {
    pub sha1: String,
    pub size: usize,
    pub url: String,
}

/// The main downloads of a version.
#[derive(Debug)]
pub struct VersionDownloads {
    pub client: Download,
    pub client_mappings: Download,
    pub server: Download,
    pub server_mappings: Download,
}

/// The Java runtime a version asks for.
#[derive(Debug)]
pub struct JavaVersion {
    pub component: String,
    pub major_version: usize,
}

/// A library's artifact: its relative path, hash, size, and location.
#[derive(Debug)]
pub struct Artifact {
    pub path: String,
    pub sha1: String,
    pub size: usize,
    pub url: String,
}

/// The downloads of one library.
#[derive(Debug)]
pub struct LibraryDownloads {
    pub artifact: Artifact,
}

/// One library dependency, optionally guarded by rules.
#[derive(Debug)]
pub struct Library {
    pub downloads: LibraryDownloads,
    pub name: String,
    pub rules: Option<RuleList>,
}

/// Whether a library belongs on the platform: it declares no rules, or its
/// rules permit it.
pub open spec fn spec_library_permitted(
    library: Library,
    platform: Platform,
    features: FeatureSet,
) -> bool {
    match library.rules {
        None => true,
        Some(rules) => spec_evaluate(rules.0@, platform, features),
    }
}

impl Library {
    /// A library is included in the download set and the classpath exactly
    /// when it declares no rule list or its rule list permits it.
    pub fn is_permitted(&self, platform: &Platform, features: &FeatureSet) -> (r: bool)
        ensures
            r == spec_library_permitted(*self, *platform, *features),
    {
        match &self.rules {
            None => true,
            Some(rules) => rules.evaluate(platform, features),
        }
    }
}

/// The logging library file of a version.
#[derive(Debug)]
pub struct LoggingLibrary {
    pub id: String,
    pub sha1: String,
    pub size: usize,
    pub url: String,
}

/// The client logging configuration.
#[derive(Debug)]
pub struct LoggingClient {
    pub argument: String,
    pub file: LoggingLibrary,
    pub log_type: String,
}

/// The logging section of a version's metadata.
#[derive(Debug)]
pub struct Logging {
    pub client: LoggingClient,
}

/// A version's full metadata document.
#[derive(Debug)]
pub struct VersionMeta {
    pub arguments: Arguments,
    pub asset_index: AssetIndex,
    pub assets: String,
    pub compliance_level: usize,
    pub downloads: VersionDownloads,
    pub id: String,
    pub java_version: JavaVersion,
    pub libraries: Vec<Library>,
    pub logging: Logging,
    pub main_class: String,
    pub minimum_launcher_version: usize,
    pub release_time: String,
    pub time: String,
    pub release_type: VersionType,
}

} // verus!

//! Verified core of a game-client launcher.
//!
//! The library decides, for a given target platform and feature set, which
//! conditional launch arguments and library dependencies apply, expands
//! argument lists in order, and substitutes `${name}` placeholders with
//! resolved launch parameters. The surrounding downloader (network fetch,
//! file hashing, process spawning) lives outside the library and consumes
//! these pure functions.

pub mod arguments;
pub mod assets;
pub mod features;
pub mod hashing;
pub mod identity;
pub mod launch;
pub mod params;
pub mod platform;
pub mod rules;
pub mod text;
pub mod version;
pub mod version_list;

pub use arguments::{Argument, ArgumentList, ArgumentValue};
pub use assets::{Asset, AssetList};
pub use features::FeatureSet;
pub use hashing::{asset_url, contents_match_sha1, hash_prefix};
pub use identity::offline_player_uuid;
pub use launch::{classpath, launch_arguments};
pub use params::LaunchParameters;
pub use platform::{Arch, OSName, Platform, OS};
pub use rules::{Rule, RuleAction, RuleList};
pub use text::{join_with, replace_all, str_eq, strip_verbatim_prefix};
pub use version::{
    Arguments, Artifact, AssetIndex, Download, JavaVersion, Library, LibraryDownloads, Logging,
    LoggingClient, LoggingLibrary, VersionDownloads, VersionMeta,
};
pub use version_list::{FullVersionInfo, LatestVersions, VersionInfo, VersionList, VersionType};

use gigalaunch::{
    asset_url, contents_match_sha1, hash_prefix, offline_player_uuid, FeatureSet, Library,
    LibraryDownloads, Artifact, OSName, Platform, Rule, RuleList, OS,
};

#[test]
fn sha1_digest_of_known_contents() {
    let data: Vec<u8> = b"abc".to_vec();
    assert!(contents_match_sha1(&data, "a9993e364706816aba3e25717850c26c9cd0d89d"));
    assert!(!contents_match_sha1(&data, "0000000000000000000000000000000000000000"));
    // The digest of the empty input differs from the digest of "abc".
    let empty: Vec<u8> = Vec::new();
    assert!(contents_match_sha1(&empty, "da39a3ee5e6b4b0d3255bfef95601890afd80709"));
    assert!(!contents_match_sha1(&empty, "a9993e364706816aba3e25717850c26c9cd0d89d"));
}

#[test]
fn hash_prefix_of_valid_hash() {
    assert_eq!(
        hash_prefix("a9993e364706816aba3e25717850c26c9cd0d89d"),
        Some(String::from("a9"))
    );
}

#[test]
fn hash_prefix_refuses_bad_hashes() {
    assert_eq!(hash_prefix("A9993E36"), None);
    assert_eq!(hash_prefix("a"), None);
    assert_eq!(hash_prefix(""), None);
    assert_eq!(hash_prefix("a9993g36"), None);
    assert_eq!(hash_prefix("a9 93e3"), None);
}

#[test]
fn asset_url_of_hash() {
    assert_eq!(
        asset_url("a9993e364706816aba3e25717850c26c9cd0d89d"),
        Some(String::from(
            "https://resources.download.minecraft.net/a9/a9993e364706816aba3e25717850c26c9cd0d89d"
        ))
    );
    assert_eq!(asset_url("xyz"), None);
}

#[test]
fn offline_uuid_matches_name_based_uuid() {
    let direct = uuid::Uuid::new_v3(&uuid::Uuid::NAMESPACE_X500, b"OfflinePlayer:EngusMaze")
        .simple()
        .to_string();
    assert_eq!(offline_player_uuid("EngusMaze"), direct);
    assert_eq!(offline_player_uuid("EngusMaze").len(), 32);
    assert_ne!(offline_player_uuid("EngusMaze"), offline_player_uuid("Alex"));
}

fn library(rules: Option<RuleList>) -> Library {
    Library {
        downloads: LibraryDownloads {
            artifact: Artifact {
                path: String::from("org/lwjgl/lwjgl/lwjgl.jar"),
                sha1: String::from("a9993e364706816aba3e25717850c26c9cd0d89d"),
                size: 1,
                url: String::from("https://libraries.minecraft.net/lwjgl.jar"),
            },
        },
        name: String::from("org.lwjgl:lwjgl:3.3.3"),
        rules,
    }
}

#[test]
fn library_filter_follows_rules() {
    let linux = Platform { os: String::from("linux"), arch: String::from("x86_64") };
    let features = FeatureSet { names: Vec::new() };
    assert!(library(None).is_permitted(&linux, &features));
    let linux_only = RuleList(vec![Rule {
        action: String::from("allow"),
        features: None,
        os: Some(OS { name: Some(OSName::Linux), arch: None }),
    }]);
    assert!(library(Some(linux_only)).is_permitted(&linux, &features));
    let windows_only = RuleList(vec![Rule {
        action: String::from("allow"),
        features: None,
        os: Some(OS { name: Some(OSName::Windows), arch: None }),
    }]);
    assert!(!library(Some(windows_only)).is_permitted(&linux, &features));
}

//! The asset index: logical asset names mapped to content hash and size.

use vstd::prelude::*;

verus! {

/// One asset object: its content hash and its size in bytes.
#[derive(Debug)]
pub struct Asset {
    pub hash: String,
    pub size: usize,
}

/// The asset index: asset objects keyed by their logical names.
#[derive(Debug)]
pub struct AssetList {
    pub objects: Vec<(String, Asset)>,
}

} // verus!

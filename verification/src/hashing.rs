//! Content-hash checking and the derivation of asset locations from a
//! content hash. The SHA-1 digest itself comes from the `sha1` crate; the
//! comparison against an expected hash and the hash-prefix slicing are
//! verified here.

use vstd::prelude::*;

use crate::text::str_eq;

verus! {

/// A lowercase hexadecimal digit.
pub open spec fn is_lower_hex_digit(c: char) -> bool {
    (48 <= c as u32 && c as u32 <= 57) || (97 <= c as u32 && c as u32 <= 102)
}

/// A string of lowercase hexadecimal digits, as the remote metadata states
/// content hashes.
pub open spec fn is_lower_hex(s: Seq<char>) -> bool {
    forall|i: int| 0 <= i < s.len() ==> is_lower_hex_digit(#[trigger] s[i])
}

/// The lowercase hexadecimal SHA-1 digest of a byte sequence: a function of
/// the bytes alone.
pub uninterp spec fn sha1_hex_of(data: Seq<u8>) -> Seq<char>;

/// Relies on `sha1::Sha1` (through the `digest` traits) for the SHA-1
/// digest of the bytes, and on the digest array's `LowerHex` formatting:
/// two lowercase hexadecimal digits per digest byte, 40 in all.
#[verifier::external_body]
fn sha1_hex(data: &Vec<u8>) -> (result: String)
    ensures
        result@ == sha1_hex_of(data@),
        result@.len() == 40,
        is_lower_hex(result@),
{
    let mut hasher = <sha1::Sha1 as sha1::Digest>::new();
    sha1::Digest::update(&mut hasher, data.as_slice());
    let digest = sha1::Digest::finalize(hasher);
    format!("{:x}", digest)
}

/// Whether the contents' SHA-1 digest, written in lowercase hexadecimal,
/// is exactly the expected hash. A file whose digest differs from the
/// manifest's hash is downloaded afresh.
pub fn contents_match_sha1(data: &Vec<u8>, expected: &str) -> (r: bool)
    ensures
        r == (sha1_hex_of(data@) == expected@),
{
    let digest = sha1_hex(data);
    str_eq(digest.as_str(), expected)
}

/// The two-character directory prefix of a content hash. Refuses a hash
/// that is not lowercase hexadecimal or is shorter than the prefix, rather
/// than slicing blindly.
pub fn hash_prefix(hash: &str) -> (result: Option<String>)
    ensures
        result is Some <==> (hash@.len() >= 2 && is_lower_hex(hash@)),
        result matches Some(p) ==> p@ == hash@.subrange(0, 2),
{
    let n = hash.unicode_len();
    if n < 2 {
        return None;
    }
    let mut i: usize = 0;
    while i < n
        invariant
            n == hash@.len(),
            i <= n,
            forall|k: int| 0 <= k < i ==> is_lower_hex_digit(#[trigger] hash@[k]),
        decreases n - i,
    {
        let c = hash.get_char(i);
        let u = c as u32;
        if !((48 <= u && u <= 57) || (97 <= u && u <= 102)) {
            proof {
                assert(!is_lower_hex_digit(hash@[i as int]));
            }
            return None;
        }
        i += 1;
    }
    Some(hash.substring_char(0, 2).to_owned())
}

/// The download URL of an asset object: the resource host, the hash's
/// two-character prefix, and the hash itself. Refuses hashes that
/// [`hash_prefix`] refuses.
pub fn asset_url(hash: &str) -> (result: Option<String>)
    ensures
        result is Some <==> (hash@.len() >= 2 && is_lower_hex(hash@)),
        result matches Some(u) ==> u@ == "https://resources.download.minecraft.net/"@
            + hash@.subrange(0, 2) + "/"@ + hash@,
{
    match hash_prefix(hash) {
        None => None,
        Some(prefix) => {
            let url = "https://resources.download.minecraft.net/".to_owned();
            let url = url.concat(prefix.as_str());
            let url = url.concat("/");
            let url = url.concat(hash);
            Some(url)
        },
    }
}

} // verus!

//! The offline player identifier: a name-based (version 3) UUID derived
//! from the player name, as the launcher assigns identities without an
//! account service.

use vstd::prelude::*;

verus! {

/// The simple (hyphen-free, lowercase hexadecimal) rendering of the version
/// 3 UUID of a name under the X.500 namespace: a function of the name's
/// characters alone.
pub uninterp spec fn uuid_v3_x500_simple_of(name: Seq<char>) -> Seq<char>;

/// Relies on `uuid::Uuid::new_v3`, the deterministic MD5 name-based UUID of
/// the namespace and name bytes, and on the `Simple` rendering: 32
/// lowercase hexadecimal digits.
#[verifier::external_body]
fn uuid_v3_x500_simple(name: &str) -> (result: String)
    ensures
        result@ == uuid_v3_x500_simple_of(name@),
        result@.len() == 32,
{
    uuid::Uuid::new_v3(&uuid::Uuid::NAMESPACE_X500, name.as_bytes()).simple().to_string()
}

/// The authentication UUID of an offline player: the version 3 UUID of
/// `OfflinePlayer:` followed by the player name.
pub fn offline_player_uuid(player_name: &str) -> (result: String)
    ensures
        result@ == uuid_v3_x500_simple_of("OfflinePlayer:"@ + player_name@),
        result@.len() == 32,
{
    let qualified = "OfflinePlayer:".to_owned();
    let qualified = qualified.concat(player_name);
    uuid_v3_x500_simple(qualified.as_str())
}

} // verus!

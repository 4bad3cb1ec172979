//! The closed set of named launch parameters and the placeholder
//! substitution routine. Every parameter defaults to the literal string
//! `"null"` until assigned; substitution rewrites each `${name}` placeholder
//! in one left-to-right pass per parameter name, in declared order, and
//! leaves unrecognized placeholders untouched.

use vstd::prelude::*;

use crate::text::{replace_all, spec_occurs, spec_replace, lemma_replace_absent};

verus! {

/// The fixed launch-parameter record: one string slot per recognized
/// placeholder name.
#[derive(Debug)]
pub struct LaunchParameters {
    pub auth_player_name: String,
    pub version_name: String,
    pub game_directory: String,
    pub assets_root: String,
    pub assets_index_name: String,
    pub auth_uuid: String,
    pub auth_access_token: String,
    pub clientid: String,
    pub auth_xuid: String,
    pub user_type: String,
    pub version_type: String,
    pub classpath: String,
    pub natives_directory: String,
    pub launcher_name: String,
    pub launcher_version: String,
}

/// The result of substituting every recognized placeholder in `text`: one
/// pass per parameter, in declared order.
pub open spec fn spec_substitute(params: LaunchParameters, text: Seq<char>) -> Seq<char> {
    let t = spec_replace(text, "${auth_player_name}"@, params.auth_player_name@);
    let t = spec_replace(t, "${version_name}"@, params.version_name@);
    let t = spec_replace(t, "${game_directory}"@, params.game_directory@);
    let t = spec_replace(t, "${assets_root}"@, params.assets_root@);
    let t = spec_replace(t, "${assets_index_name}"@, params.assets_index_name@);
    let t = spec_replace(t, "${auth_uuid}"@, params.auth_uuid@);
    let t = spec_replace(t, "${auth_access_token}"@, params.auth_access_token@);
    let t = spec_replace(t, "${clientid}"@, params.clientid@);
    let t = spec_replace(t, "${auth_xuid}"@, params.auth_xuid@);
    let t = spec_replace(t, "${user_type}"@, params.user_type@);
    let t = spec_replace(t, "${version_type}"@, params.version_type@);
    let t = spec_replace(t, "${classpath}"@, params.classpath@);
    let t = spec_replace(t, "${natives_directory}"@, params.natives_directory@);
    let t = spec_replace(t, "${launcher_name}"@, params.launcher_name@);
    let t = spec_replace(t, "${launcher_version}"@, params.launcher_version@);
    t
}

/// Every slot holds the literal string `"null"`.
pub open spec fn spec_all_null(params: LaunchParameters) -> bool {
    &&& params.auth_player_name@ == "null"@
    &&& params.version_name@ == "null"@
    &&& params.game_directory@ == "null"@
    &&& params.assets_root@ == "null"@
    &&& params.assets_index_name@ == "null"@
    &&& params.auth_uuid@ == "null"@
    &&& params.auth_access_token@ == "null"@
    &&& params.clientid@ == "null"@
    &&& params.auth_xuid@ == "null"@
    &&& params.user_type@ == "null"@
    &&& params.version_type@ == "null"@
    &&& params.classpath@ == "null"@
    &&& params.natives_directory@ == "null"@
    &&& params.launcher_name@ == "null"@
    &&& params.launcher_version@ == "null"@
}

impl Default for LaunchParameters {
    /// Fresh parameters: every slot holds `"null"`.
    fn default() -> (result: LaunchParameters)
        ensures
            spec_all_null(result),
    {
        LaunchParameters {
            auth_player_name: "null".to_owned(),
            version_name: "null".to_owned(),
            game_directory: "null".to_owned(),
            assets_root: "null".to_owned(),
            assets_index_name: "null".to_owned(),
            auth_uuid: "null".to_owned(),
            auth_access_token: "null".to_owned(),
            clientid: "null".to_owned(),
            auth_xuid: "null".to_owned(),
            user_type: "null".to_owned(),
            version_type: "null".to_owned(),
            classpath: "null".to_owned(),
            natives_directory: "null".to_owned(),
            launcher_name: "null".to_owned(),
            launcher_version: "null".to_owned(),
        }
    }
}

impl LaunchParameters {
    /// Substitutes every recognized `${name}` placeholder in `text` with
    /// the parameter's current value, one pass per parameter in declared
    /// order; unrecognized placeholders are left untouched.
    pub fn replace(&self, text: &str) -> (result: String)
        ensures
            result@ == spec_substitute(*self, text@),
    {
        proof {
            reveal_strlit("${auth_player_name}");
            reveal_strlit("${version_name}");
            reveal_strlit("${game_directory}");
            reveal_strlit("${assets_root}");
            reveal_strlit("${assets_index_name}");
            reveal_strlit("${auth_uuid}");
            reveal_strlit("${auth_access_token}");
            reveal_strlit("${clientid}");
            reveal_strlit("${auth_xuid}");
            reveal_strlit("${user_type}");
            reveal_strlit("${version_type}");
            reveal_strlit("${classpath}");
            reveal_strlit("${natives_directory}");
            reveal_strlit("${launcher_name}");
            reveal_strlit("${launcher_version}");
        }
        let t = replace_all(text, "${auth_player_name}", self.auth_player_name.as_str());
        let t = replace_all(t.as_str(), "${version_name}", self.version_name.as_str());
        let t = replace_all(t.as_str(), "${game_directory}", self.game_directory.as_str());
        let t = replace_all(t.as_str(), "${assets_root}", self.assets_root.as_str());
        let t = replace_all(t.as_str(), "${assets_index_name}", self.assets_index_name.as_str());
        let t = replace_all(t.as_str(), "${auth_uuid}", self.auth_uuid.as_str());
        let t = replace_all(t.as_str(), "${auth_access_token}", self.auth_access_token.as_str());
        let t = replace_all(t.as_str(), "${clientid}", self.clientid.as_str());
        let t = replace_all(t.as_str(), "${auth_xuid}", self.auth_xuid.as_str());
        let t = replace_all(t.as_str(), "${user_type}", self.user_type.as_str());
        let t = replace_all(t.as_str(), "${version_type}", self.version_type.as_str());
        let t = replace_all(t.as_str(), "${classpath}", self.classpath.as_str());
        let t = replace_all(t.as_str(), "${natives_directory}", self.natives_directory.as_str());
        let t = replace_all(t.as_str(), "${launcher_name}", self.launcher_name.as_str());
        let t = replace_all(t.as_str(), "${launcher_version}", self.launcher_version.as_str());
        t
    }
}

/// Law: a text in which no recognized placeholder occurs comes back from
/// substitution exactly as it was, whatever the parameter values.
pub proof fn lemma_substitute_absent(params: LaunchParameters, text: Seq<char>)
    requires
        !spec_occurs(text, "${auth_player_name}"@),
        !spec_occurs(text, "${version_name}"@),
        !spec_occurs(text, "${game_directory}"@),
        !spec_occurs(text, "${assets_root}"@),
        !spec_occurs(text, "${assets_index_name}"@),
        !spec_occurs(text, "${auth_uuid}"@),
        !spec_occurs(text, "${auth_access_token}"@),
        !spec_occurs(text, "${clientid}"@),
        !spec_occurs(text, "${auth_xuid}"@),
        !spec_occurs(text, "${user_type}"@),
        !spec_occurs(text, "${version_type}"@),
        !spec_occurs(text, "${classpath}"@),
        !spec_occurs(text, "${natives_directory}"@),
        !spec_occurs(text, "${launcher_name}"@),
        !spec_occurs(text, "${launcher_version}"@),
    ensures
        spec_substitute(params, text) == text,
{
    reveal_strlit("${auth_player_name}");
    reveal_strlit("${version_name}");
    reveal_strlit("${game_directory}");
    reveal_strlit("${assets_root}");
    reveal_strlit("${assets_index_name}");
    reveal_strlit("${auth_uuid}");
    reveal_strlit("${auth_access_token}");
    reveal_strlit("${clientid}");
    reveal_strlit("${auth_xuid}");
    reveal_strlit("${user_type}");
    reveal_strlit("${version_type}");
    reveal_strlit("${classpath}");
    reveal_strlit("${natives_directory}");
    reveal_strlit("${launcher_name}");
    reveal_strlit("${launcher_version}");
    lemma_replace_absent(text, "${auth_player_name}"@, params.auth_player_name@);
    lemma_replace_absent(text, "${version_name}"@, params.version_name@);
    lemma_replace_absent(text, "${game_directory}"@, params.game_directory@);
    lemma_replace_absent(text, "${assets_root}"@, params.assets_root@);
    lemma_replace_absent(text, "${assets_index_name}"@, params.assets_index_name@);
    lemma_replace_absent(text, "${auth_uuid}"@, params.auth_uuid@);
    lemma_replace_absent(text, "${auth_access_token}"@, params.auth_access_token@);
    lemma_replace_absent(text, "${clientid}"@, params.clientid@);
    lemma_replace_absent(text, "${auth_xuid}"@, params.auth_xuid@);
    lemma_replace_absent(text, "${user_type}"@, params.user_type@);
    lemma_replace_absent(text, "${version_type}"@, params.version_type@);
    lemma_replace_absent(text, "${classpath}"@, params.classpath@);
    lemma_replace_absent(text, "${natives_directory}"@, params.natives_directory@);
    lemma_replace_absent(text, "${launcher_name}"@, params.launcher_name@);
    lemma_replace_absent(text, "${launcher_version}"@, params.launcher_version@);
}

} // verus!

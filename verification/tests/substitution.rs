use gigalaunch::{join_with, replace_all, str_eq, strip_verbatim_prefix, LaunchParameters, VersionType};

#[test]
fn replaces_every_occurrence() {
    let out = replace_all("x ${a} y ${a} z", "${a}", "1");
    assert_eq!(out, String::from("x 1 y 1 z"));
}

#[test]
fn replacement_is_not_rescanned() {
    let out = replace_all("${a}", "${a}", "${a}${a}");
    assert_eq!(out, String::from("${a}${a}"));
}

#[test]
fn substitutes_assigned_parameters() {
    let mut params = LaunchParameters::default();
    params.auth_player_name = String::from("Steve");
    params.version_name = String::from("1.20");
    let out = params.replace("--username ${auth_player_name} --version ${version_name}");
    assert_eq!(out, String::from("--username Steve --version 1.20"));
}

#[test]
fn leaves_unrecognized_placeholders_untouched() {
    let mut params = LaunchParameters::default();
    params.auth_player_name = String::from("Steve");
    let out = params.replace("${unknown_param} and ${auth_player_name}");
    assert_eq!(out, String::from("${unknown_param} and Steve"));
    let out = params.replace("no placeholders here");
    assert_eq!(out, String::from("no placeholders here"));
}

#[test]
fn unassigned_parameters_render_as_null() {
    let params = LaunchParameters::default();
    let recognized = [
        "${auth_player_name}",
        "${version_name}",
        "${game_directory}",
        "${assets_root}",
        "${assets_index_name}",
        "${auth_uuid}",
        "${auth_access_token}",
        "${clientid}",
        "${auth_xuid}",
        "${user_type}",
        "${version_type}",
        "${classpath}",
        "${natives_directory}",
        "${launcher_name}",
        "${launcher_version}",
    ];
    for placeholder in recognized.iter() {
        assert_eq!(params.replace(placeholder), String::from("null"));
    }
}

#[test]
fn join_with_semicolons() {
    let parts = vec![String::from("a.jar"), String::from("b.jar"), String::from("c.jar")];
    assert_eq!(gigalaunch::classpath(&parts), String::from("a.jar;b.jar;c.jar"));
    assert_eq!(join_with(&parts, ";"), String::from("a.jar;b.jar;c.jar"));
    assert_eq!(join_with(&vec![String::from("only")], ";"), String::from("only"));
    assert_eq!(join_with(&Vec::new(), ";"), String::from(""));
}

#[test]
fn strips_windows_verbatim_prefix() {
    let stripped = strip_verbatim_prefix("\\\\?\\C:\\game", true);
    assert_eq!(stripped, Some(String::from("C:\\game")));
    let kept = strip_verbatim_prefix("/home/user/game", false);
    assert_eq!(kept, Some(String::from("/home/user/game")));
    assert_eq!(strip_verbatim_prefix("C:", true), None);
}

#[test]
fn version_type_parameter_names() {
    assert_eq!(VersionType::Release.as_parameter(), String::from("release"));
    assert_eq!(VersionType::Snapshot.as_parameter(), String::from("snapshot"));
    assert_eq!(VersionType::OldBeta.as_parameter(), String::from("beta"));
    assert_eq!(VersionType::OldAlpha.as_parameter(), String::from("alpha"));
}

#[test]
fn str_eq_compares_content() {
    assert!(str_eq("same", "same"));
    assert!(!str_eq("same", "Same"));
    assert!(!str_eq("same", "same "));
    assert!(str_eq("", ""));
}

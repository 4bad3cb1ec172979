use gigalaunch::{
    launch_arguments, Argument, ArgumentList, ArgumentValue, Arguments, FeatureSet,
    LaunchParameters, OSName, Platform, Rule, RuleList, OS,
};

fn linux_x64() -> Platform {
    Platform { os: String::from("linux"), arch: String::from("x86_64") }
}

fn windows_x64() -> Platform {
    Platform { os: String::from("windows"), arch: String::from("x86_64") }
}

fn no_features() -> FeatureSet {
    FeatureSet { names: Vec::new() }
}

fn always_true() -> RuleList {
    RuleList(vec![Rule { action: String::from("allow"), features: None, os: None }])
}

fn always_false() -> RuleList {
    // An OS constraint that matches no recognized environment name.
    RuleList(vec![Rule {
        action: String::from("allow"),
        features: None,
        os: Some(OS { name: Some(OSName::Windows), arch: None }),
    }])
}

fn bare(s: &str) -> Argument {
    Argument::Argument(String::from(s))
}

#[test]
fn preserves_declared_order() {
    let list = ArgumentList(vec![
        bare("a"),
        Argument::RuledArgument {
            rules: always_true(),
            value: ArgumentValue::Single(String::from("b")),
        },
        bare("c"),
    ]);
    let result = list.construct_arguments(&linux_x64(), &no_features());
    assert_eq!(result, vec![String::from("a"), String::from("b"), String::from("c")]);
}

#[test]
fn omits_rejected_entries() {
    let list = ArgumentList(vec![
        bare("a"),
        Argument::RuledArgument {
            rules: always_false(),
            value: ArgumentValue::Single(String::from("b")),
        },
        bare("c"),
    ]);
    let result = list.construct_arguments(&linux_x64(), &no_features());
    assert_eq!(result, vec![String::from("a"), String::from("c")]);
}

#[test]
fn multi_valued_entries_expand_in_order() {
    let list = ArgumentList(vec![
        Argument::RuledArgument {
            rules: always_true(),
            value: ArgumentValue::Multiple(vec![
                String::from("-Xss1M"),
                String::from("-Dfoo=bar"),
                String::from("-Dbaz=qux"),
            ]),
        },
        bare("tail"),
    ]);
    let result = list.construct_arguments(&linux_x64(), &no_features());
    assert_eq!(
        result,
        vec![
            String::from("-Xss1M"),
            String::from("-Dfoo=bar"),
            String::from("-Dbaz=qux"),
            String::from("tail"),
        ]
    );
}

#[test]
fn empty_list_expands_to_nothing() {
    let list = ArgumentList(Vec::new());
    let result = list.construct_arguments(&linux_x64(), &no_features());
    assert!(result.is_empty());
}

#[test]
fn feature_set_collects_all_referenced_names() {
    // One rule that can fire and one that never does on this platform:
    // both contribute their feature names.
    let list = ArgumentList(vec![
        bare("plain"),
        Argument::RuledArgument {
            rules: RuleList(vec![Rule {
                action: String::from("allow"),
                features: Some(vec![
                    (String::from("is_demo_user"), true),
                    (String::from("has_custom_resolution"), false),
                ]),
                os: None,
            }]),
            value: ArgumentValue::Single(String::from("--demo")),
        },
        Argument::RuledArgument {
            rules: RuleList(vec![Rule {
                action: String::from("allow"),
                features: Some(vec![(String::from("has_quick_plays_support"), true)]),
                os: Some(OS { name: Some(OSName::Windows), arch: None }),
            }]),
            value: ArgumentValue::Single(String::from("--quickPlay")),
        },
    ]);
    let set = list.feature_set();
    assert!(set.contains("is_demo_user"));
    assert!(set.contains("has_custom_resolution"));
    assert!(set.contains("has_quick_plays_support"));
    assert!(!set.contains("is_demo_user "));
    assert!(!set.contains("unrelated"));
}

#[test]
fn feature_set_of_plain_list_is_empty() {
    let list = ArgumentList(vec![bare("a"), bare("b")]);
    let set = list.feature_set();
    assert!(set.names.is_empty());
}

#[test]
fn end_to_end_linux_and_windows() {
    let game = ArgumentList(vec![
        Argument::RuledArgument {
            rules: RuleList(vec![Rule {
                action: String::from("allow"),
                features: None,
                os: Some(OS { name: Some(OSName::Linux), arch: None }),
            }]),
            value: ArgumentValue::Multiple(vec![String::from("-Dfoo=bar")]),
        },
        bare("-jar"),
        bare("${version_name}.jar"),
    ]);
    let mut params = LaunchParameters::default();
    params.version_name = String::from("1.20");

    let expanded = game.construct_arguments(&linux_x64(), &no_features());
    let substituted: Vec<String> =
        expanded.iter().map(|a| params.replace(a.as_str())).collect();
    assert_eq!(
        substituted,
        vec![String::from("-Dfoo=bar"), String::from("-jar"), String::from("1.20.jar")]
    );

    let expanded = game.construct_arguments(&windows_x64(), &no_features());
    let substituted: Vec<String> =
        expanded.iter().map(|a| params.replace(a.as_str())).collect();
    assert_eq!(substituted, vec![String::from("-jar"), String::from("1.20.jar")]);
}

#[test]
fn launch_arguments_orders_jvm_class_game() {
    let arguments = Arguments {
        jvm: ArgumentList(vec![bare("-cp"), bare("${classpath}")]),
        game: ArgumentList(vec![bare("--version"), bare("${version_name}")]),
    };
    let mut params = LaunchParameters::default();
    params.classpath = String::from("a.jar;b.jar");
    params.version_name = String::from("1.20");
    let result = launch_arguments(
        &arguments,
        "net.minecraft.client.main.Main",
        &linux_x64(),
        &no_features(),
        &params,
    );
    assert_eq!(
        result,
        vec![
            String::from("-cp"),
            String::from("a.jar;b.jar"),
            String::from("net.minecraft.client.main.Main"),
            String::from("--version"),
            String::from("1.20"),
        ]
    );
}

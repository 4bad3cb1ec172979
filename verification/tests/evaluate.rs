use gigalaunch::{Arch, FeatureSet, OSName, Platform, Rule, RuleList, OS};

fn linux_x64() -> Platform {
    Platform { os: String::from("linux"), arch: String::from("x86_64") }
}

fn windows_x86() -> Platform {
    Platform { os: String::from("windows"), arch: String::from("x86") }
}

fn no_features() -> FeatureSet {
    FeatureSet { names: Vec::new() }
}

fn plain_rule() -> Rule {
    Rule { action: String::from("allow"), features: None, os: None }
}

fn os_rule(name: OSName) -> Rule {
    Rule {
        action: String::from("allow"),
        features: None,
        os: Some(OS { name: Some(name), arch: None }),
    }
}

fn arch_rule(arch: Arch) -> Rule {
    Rule {
        action: String::from("allow"),
        features: None,
        os: Some(OS { name: None, arch: Some(arch) }),
    }
}

fn feature_rule(name: &str, required: bool) -> Rule {
    Rule {
        action: String::from("allow"),
        features: Some(vec![(String::from(name), required)]),
        os: None,
    }
}

#[test]
fn empty_rule_list_permits() {
    let rules = RuleList(Vec::new());
    assert!(rules.evaluate(&linux_x64(), &no_features()));
}

#[test]
fn unconstrained_rules_permit() {
    let rules = RuleList(vec![plain_rule(), plain_rule()]);
    assert!(rules.evaluate(&linux_x64(), &no_features()));
    let active = FeatureSet { names: vec![String::from("anything")] };
    assert!(rules.evaluate(&windows_x86(), &active));
}

#[test]
fn matching_os_permits() {
    let rules = RuleList(vec![os_rule(OSName::Linux)]);
    assert!(rules.evaluate(&linux_x64(), &no_features()));
}

#[test]
fn mismatched_os_rejects() {
    let rules = RuleList(vec![os_rule(OSName::Linux)]);
    assert!(!rules.evaluate(&windows_x86(), &no_features()));
    let rules = RuleList(vec![os_rule(OSName::Windows)]);
    assert!(!rules.evaluate(&linux_x64(), &no_features()));
    let rules = RuleList(vec![os_rule(OSName::MacOS)]);
    assert!(!rules.evaluate(&linux_x64(), &no_features()));
}

#[test]
fn unrecognized_environment_os_matches_nothing() {
    let odd = Platform { os: String::from("freebsd"), arch: String::from("x86_64") };
    let rules = RuleList(vec![os_rule(OSName::Linux)]);
    assert!(!rules.evaluate(&odd, &no_features()));
}

#[test]
fn x86_arch_matches_both_runtimes() {
    let rules = RuleList(vec![arch_rule(Arch::X86)]);
    assert!(rules.evaluate(&linux_x64(), &no_features()));
    assert!(rules.evaluate(&windows_x86(), &no_features()));
}

#[test]
fn unrecognized_environment_arch_rejects() {
    let arm = Platform { os: String::from("linux"), arch: String::from("aarch64") };
    let rules = RuleList(vec![arch_rule(Arch::X86)]);
    assert!(!rules.evaluate(&arm, &no_features()));
}

#[test]
fn feature_state_matching_requirement_rejects() {
    // A rule whose mapping requires ("foo", true) fires exactly when the
    // feature's membership equals the stated boolean.
    let rules = RuleList(vec![feature_rule("foo", true)]);
    let with_foo = FeatureSet { names: vec![String::from("foo")] };
    assert!(!rules.evaluate(&linux_x64(), &with_foo));
    assert!(rules.evaluate(&linux_x64(), &no_features()));

    let rules = RuleList(vec![feature_rule("foo", false)]);
    assert!(!rules.evaluate(&linux_x64(), &no_features()));
    let with_foo = FeatureSet { names: vec![String::from("foo")] };
    assert!(rules.evaluate(&linux_x64(), &with_foo));
}

#[test]
fn later_blocking_rule_rejects_whole_list() {
    let rules = RuleList(vec![plain_rule(), os_rule(OSName::Windows)]);
    assert!(!rules.evaluate(&linux_x64(), &no_features()));
}

#[test]
fn feature_set_membership() {
    let set = FeatureSet { names: vec![String::from("demo"), String::from("foo")] };
    assert!(set.contains("demo"));
    assert!(set.contains("foo"));
    assert!(!set.contains("bar"));
    assert!(!FeatureSet::empty().contains("demo"));
}

#[test]
fn platform_matcher_direct() {
    let p = linux_x64();
    assert!(p.matches_os_name(OSName::Linux));
    assert!(!p.matches_os_name(OSName::Windows));
    assert!(!p.matches_os_name(OSName::MacOS));
    assert!(p.matches_arch(Arch::X86));
    let mac = Platform { os: String::from("macos"), arch: String::from("x86") };
    assert!(mac.matches_os_name(OSName::MacOS));
    assert!(mac.matches_arch(Arch::X86));
}

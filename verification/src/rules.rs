//! Conditional rules gating launch arguments and library dependencies, and
//! their evaluator.
//!
//! A rule list is evaluated as a conjunction: the guarded item is permitted
//! unless some rule's OS, architecture, or feature constraint fails to hold,
//! in which case scanning stops and the whole list is rejected. A rule's
//! `action` tag is carried but never consulted: every rule behaves as an
//! allow rule gated by its constraints, and a rule without constraints is
//! automatically satisfied.

use vstd::prelude::*;

use crate::features::FeatureSet;
use crate::platform::{Platform, OS};
use crate::platform::{spec_matches_arch, spec_matches_os_name};

verus! {

/// The nominal action tag a rule may carry. Parsed from metadata but not
/// consulted by the evaluator.
#[derive(Debug)]
pub enum RuleAction {
    Allow,
    Disallow,
}

/// One conditional rule: a nominal action tag, an optional mapping from
/// feature name to required boolean state, and an optional OS/architecture
/// constraint.
#[derive(Debug)]
pub struct Rule {
    pub action: String,
    pub features: Option<Vec<(String, bool)>>,
    pub os: Option<OS>,
}

/// An ordered list of rules, evaluated as a conjunction.
#[derive(Debug)]
pub struct RuleList(pub Vec<Rule>);

/// A feature pair `(name, required)` fires when the feature's membership in
/// the active set equals the stated boolean exactly.
pub open spec fn spec_feature_pair_fires(pair: (String, bool), features: FeatureSet) -> bool {
    features.spec_contains(pair.0@) == pair.1
}

/// A rule rejects the guarded item when it declares an OS name that does
/// not match, an architecture that does not match, or a feature pair whose
/// state matches the pair's stated boolean.
pub open spec fn spec_rule_rejects(rule: Rule, platform: Platform, features: FeatureSet) -> bool {
    ||| (rule.os matches Some(os) && os.name matches Some(name) && !spec_matches_os_name(
        platform.os@,
        name,
    ))
    ||| (rule.os matches Some(os) && os.arch matches Some(arch) && !spec_matches_arch(
        platform.arch@,
        arch,
    ))
    ||| (rule.features matches Some(fm) && exists|j: int|
        0 <= j < fm@.len() && spec_feature_pair_fires(#[trigger] fm@[j], features))
}

/// A rule list permits the guarded item exactly when no rule rejects it.
pub open spec fn spec_evaluate(rules: Seq<Rule>, platform: Platform, features: FeatureSet) -> bool {
    forall|i: int| 0 <= i < rules.len() ==> !spec_rule_rejects(#[trigger] rules[i], platform, features)
}

impl RuleList {
    /// Scans the rules in order; the first rule whose constraint fails
    /// rejects the whole list, and a list in which no rule's constraint
    /// fails permits the guarded item.
    #[verifier::loop_isolation(false)]
    pub fn evaluate(&self, platform: &Platform, features: &FeatureSet) -> (permitted: bool)
        ensures
            permitted == spec_evaluate(self.0@, *platform, *features),
    {
        let n = self.0.len();
        let mut i: usize = 0;
        while i < n
            invariant
                i <= n,
                forall|k: int|
                    0 <= k < i ==> !spec_rule_rejects(#[trigger] self.0@[k], *platform, *features),
            decreases n - i,
        {
            let rule = &self.0[i];
            if let Some(os) = &rule.os {
                if let Some(name) = os.name {
                    if !platform.matches_os_name(name) {
                        proof {
                            assert(spec_rule_rejects(self.0@[i as int], *platform, *features));
                        }
                        return false;
                    }
                }
                if let Some(arch) = os.arch {
                    if !platform.matches_arch(arch) {
                        proof {
                            assert(spec_rule_rejects(self.0@[i as int], *platform, *features));
                        }
                        return false;
                    }
                }
            }
            if let Some(feature_map) = &rule.features {
                let m = feature_map.len();
                let mut j: usize = 0;
                while j < m
                    invariant
                        j <= m,
                        forall|l: int|
                            0 <= l < j ==> !spec_feature_pair_fires(
                                #[trigger] feature_map@[l],
                                *features,
                            ),
                    decreases m - j,
                {
                    let required = feature_map[j].1;
                    if features.contains(feature_map[j].0.as_str()) == required {
                        proof {
                            assert(spec_feature_pair_fires(feature_map@[j as int], *features));
                            assert(spec_rule_rejects(self.0@[i as int], *platform, *features));
                        }
                        return false;
                    }
                    j += 1;
                }
            }
            proof {
                assert(!spec_rule_rejects(self.0@[i as int], *platform, *features));
            }
            i += 1;
        }
        true
    }
}

/// The rule declares no OS, architecture, or feature constraint.
pub open spec fn spec_rule_unconstrained(rule: Rule) -> bool {
    &&& rule.features is None
    &&& (rule.os matches Some(os) ==> os.name is None && os.arch is None)
}

/// For all rule lists with no OS, architecture, or feature constraints on
/// any rule, evaluation permits the item regardless of the feature set.
pub proof fn lemma_unconstrained_rules_permit(
    rules: Seq<Rule>,
    platform: Platform,
    features: FeatureSet,
)
    requires
        forall|i: int| 0 <= i < rules.len() ==> spec_rule_unconstrained(#[trigger] rules[i]),
    ensures
        spec_evaluate(rules, platform, features),
{
    assert forall|i: int|
        0 <= i < rules.len() implies !spec_rule_rejects(#[trigger] rules[i], platform, features) by {
        assert(spec_rule_unconstrained(rules[i]));
    }
}

/// For a rule list containing a single rule whose OS constraint does not
/// match the platform, evaluation rejects the item.
pub proof fn lemma_os_mismatch_rejects(rule: Rule, platform: Platform, features: FeatureSet)
    requires
        rule.os matches Some(os) && os.name matches Some(name) && !spec_matches_os_name(
            platform.os@,
            name,
        ),
    ensures
        !spec_evaluate(seq![rule], platform, features),
{
    assert(spec_rule_rejects(seq![rule][0], platform, features));
}

/// For a rule list containing a single rule whose only constraint is one
/// feature pair `(name, required)`, evaluation permits the item exactly
/// when the feature's membership in the active set differs from `required`.
/// In particular a rule requiring `(name, true)` permits only when the
/// feature is absent.
pub proof fn lemma_single_feature_rule(
    rule: Rule,
    name: String,
    required: bool,
    platform: Platform,
    features: FeatureSet,
)
    requires
        rule.os is None,
        rule.features matches Some(fm) && fm@ =~= seq![(name, required)],
    ensures
        spec_evaluate(seq![rule], platform, features) <==> (features.spec_contains(name@)
            != required),
{
    let fm = rule.features->Some_0;
    assert(fm@[0] == (name, required));
    if features.spec_contains(name@) == required {
        assert(spec_feature_pair_fires(fm@[0], features));
        assert(spec_rule_rejects(seq![rule][0], platform, features));
    } else {
        assert forall|j: int| 0 <= j < fm@.len() implies !spec_feature_pair_fires(
            #[trigger] fm@[j],
            features,
        ) by {
            assert(fm@[j] == (name, required));
        }
        assert(!spec_rule_rejects(seq![rule][0], platform, features));
        assert forall|i: int|
            0 <= i < seq![rule].len() implies !spec_rule_rejects(
            #[trigger] seq![rule][i],
            platform,
            features,
        ) by {
            assert(seq![rule][i] == rule);
        }
    }
}

} // verus!

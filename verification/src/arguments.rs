//! Argument lists: ordered sequences of plain or rule-guarded entries,
//! expanded into a flat sequence of argument strings, plus the introspection
//! operation that enumerates every feature name a list's rules reference.

use vstd::prelude::*;

use crate::features::FeatureSet;
use crate::platform::Platform;
use crate::rules::{spec_evaluate, Rule, RuleList};

verus! {

/// The value carried by a rule-guarded entry: a single string or an ordered
/// list of strings.
#[derive(Debug)]
pub enum ArgumentValue {
    Single(String),
    Multiple(Vec<String>),
}

/// One entry of an argument list: a bare string, or a rule-guarded value
/// carrying its own rule list.
#[derive(Debug)]
pub enum Argument {
    Argument(String),
    RuledArgument { rules: RuleList, value: ArgumentValue },
}

/// An ordered list of argument entries; order is significant and preserved.
#[derive(Debug)]
pub struct ArgumentList(pub Vec<Argument>);

/// The argument strings grouped under one rule-guarded value, in declared
/// order.
pub open spec fn spec_value_strings(value: ArgumentValue) -> Seq<Seq<char>> {
    match value {
        ArgumentValue::Single(s) => seq![s@],
        ArgumentValue::Multiple(vs) => vs@.map_values(|s: String| s@),
    }
}

/// The strings one entry contributes: a bare string contributes itself; a
/// rule-guarded entry contributes its values exactly when its rules permit
/// it, and nothing otherwise.
pub open spec fn spec_argument_strings(
    argument: Argument,
    platform: Platform,
    features: FeatureSet,
) -> Seq<Seq<char>> {
    match argument {
        Argument::Argument(s) => seq![s@],
        Argument::RuledArgument { rules, value } => if spec_evaluate(rules.0@, platform, features) {
            spec_value_strings(value)
        } else {
            Seq::empty()
        },
    }
}

/// The expansion of a whole argument list: the concatenation, in declared
/// order, of what each entry contributes.
pub open spec fn spec_construct_arguments(
    arguments: Seq<Argument>,
    platform: Platform,
    features: FeatureSet,
) -> Seq<Seq<char>>
    decreases arguments.len(),
{
    if arguments.len() == 0 {
        Seq::empty()
    } else {
        spec_construct_arguments(arguments.drop_last(), platform, features)
            + spec_argument_strings(arguments.last(), platform, features)
    }
}

/// Does some pair of a rule's feature mapping name `name`?
pub open spec fn spec_rule_references(rule: Rule, name: Seq<char>) -> bool {
    rule.features matches Some(fm) && exists|k: int|
        0 <= k < fm@.len() && (#[trigger] fm@[k]).0@ == name
}

/// The rules guarding one entry; a bare string is guarded by none.
pub open spec fn spec_argument_rules(argument: Argument) -> Seq<Rule> {
    match argument {
        Argument::Argument(_) => Seq::empty(),
        Argument::RuledArgument { rules, .. } => rules.0@,
    }
}

/// Does some rule guarding this entry name `name` in its feature mapping?
pub open spec fn spec_argument_references(argument: Argument, name: Seq<char>) -> bool {
    exists|j: int|
        0 <= j < spec_argument_rules(argument).len() && spec_rule_references(
            #[trigger] spec_argument_rules(argument)[j],
            name,
        )
}

/// Does any rule anywhere in the list name `name` in its feature mapping?
pub open spec fn spec_references_feature(arguments: Seq<Argument>, name: Seq<char>) -> bool {
    exists|i: int|
        0 <= i < arguments.len() && spec_argument_references(#[trigger] arguments[i], name)
}

impl ArgumentList {
    /// Expands the list into a flat ordered sequence of argument strings.
    /// Bare strings are appended verbatim; a rule-guarded entry's values are
    /// appended, in their declared order, exactly when its rules permit it.
    #[verifier::loop_isolation(false)]
    pub fn construct_arguments(&self, platform: &Platform, features: &FeatureSet) -> (result: Vec<
        String,
    >)
        ensures
            result@.map_values(|s: String| s@) == spec_construct_arguments(
                self.0@,
                *platform,
                *features,
            ),
    {
        let mut result: Vec<String> = Vec::new();
        let n = self.0.len();
        let mut i: usize = 0;
        while i < n
            invariant
                i <= n,
                result@.map_values(|s: String| s@) == spec_construct_arguments(
                    self.0@.take(i as int),
                    *platform,
                    *features,
                ),
            decreases n - i,
        {
            let ghost prefix = self.0@.take(i as int);
            let ghost contributed = spec_argument_strings(self.0@[i as int], *platform, *features);
            match &self.0[i] {
                Argument::Argument(value) => {
                    result.push(value.clone());
                },
                Argument::RuledArgument { rules, value } => {
                    if rules.evaluate(platform, features) {
                        match value {
                            ArgumentValue::Single(v) => {
                                result.push(v.clone());
                            },
                            ArgumentValue::Multiple(vs) => {
                                let ghost before = result@;
                                let m = vs.len();
                                let mut j: usize = 0;
                                while j < m
                                    invariant
                                        j <= m,
                                        result@ == before + vs@.take(j as int),
                                    decreases m - j,
                                {
                                    result.push(vs[j].clone());
                                    proof {
                                        assert(result@ =~= before + vs@.take(j + 1));
                                    }
                                    j += 1;
                                }
                                proof {
                                    assert(vs@.take(m as int) =~= vs@);
                                }
                            },
                        }
                    }
                },
            }
            proof {
                assert(self.0@.take(i + 1).drop_last() =~= prefix);
                assert(self.0@.take(i + 1).last() == self.0@[i as int]);
                assert(result@.map_values(|s: String| s@) =~= spec_construct_arguments(
                    prefix,
                    *platform,
                    *features,
                ) + contributed);
            }
            i += 1;
        }
        proof {
            assert(self.0@.take(n as int) =~= self.0@);
        }
        result
    }

    /// Collects the union of every feature name referenced anywhere in the
    /// list's rules, regardless of whether any rule would ever fire.
    #[verifier::loop_isolation(false)]
    pub fn feature_set(&self) -> (result: FeatureSet)
        ensures
            forall|name: Seq<char>|
                #[trigger] result.spec_contains(name) <==> spec_references_feature(self.0@, name),
    {
        let mut result = FeatureSet::empty();
        let n = self.0.len();
        let mut i: usize = 0;
        while i < n
            invariant
                i <= n,
                forall|name: Seq<char>|
                    #[trigger] result.spec_contains(name) <==> spec_references_feature(
                        self.0@.take(i as int),
                        name,
                    ),
            decreases n - i,
        {
            if let Argument::RuledArgument { rules, .. } = &self.0[i] {
                collect_rule_list_features(rules, &mut result);
                proof {
                    assert(spec_argument_rules(self.0@[i as int]) == rules.0@);
                }
            }
            proof {
                lemma_references_step(self.0@, i as int, result);
            }
            i += 1;
        }
        proof {
            assert(self.0@.take(n as int) =~= self.0@);
        }
        result
    }
}

/// Adds every name of one rule's feature mapping to `out`.
#[verifier::loop_isolation(false)]
fn collect_rule_features(rule: &Rule, out: &mut FeatureSet)
    ensures
        forall|name: Seq<char>|
            #[trigger] final(out).spec_contains(name) <==> (old(out).spec_contains(name)
                || spec_rule_references(*rule, name)),
{
    if let Some(feature_map) = &rule.features {
        let p = feature_map.len();
        let mut k: usize = 0;
        while k < p
            invariant
                k <= p,
                forall|name: Seq<char>|
                    #[trigger] out.spec_contains(name) <==> (old(out).spec_contains(name)
                        || exists|l: int|
                        0 <= l < k && (#[trigger] feature_map@[l]).0@ == name),
            decreases p - k,
        {
            let ghost before = *out;
            out.insert(feature_map[k].0.clone());
            proof {
                assert forall|name: Seq<char>|
                    #[trigger] out.spec_contains(name) <==> (old(out).spec_contains(name)
                        || exists|l: int|
                        0 <= l < k + 1 && (#[trigger] feature_map@[l]).0@ == name) by {
                    if out.spec_contains(name) {
                        assert(before.spec_contains(name) || name == feature_map@[k as int].0@);
                        if name == feature_map@[k as int].0@ {
                            assert(0 <= k < k + 1 && feature_map@[k as int].0@ == name);
                        }
                    }
                    if exists|l: int| 0 <= l < k + 1 && (#[trigger] feature_map@[l]).0@ == name {
                        let l = choose|l: int|
                            0 <= l < k + 1 && (#[trigger] feature_map@[l]).0@ == name;
                        if l < k {
                            assert(before.spec_contains(name) || old(out).spec_contains(name)
                                || exists|l2: int|
                                0 <= l2 < k && (#[trigger] feature_map@[l2]).0@ == name);
                        } else {
                            assert(name == feature_map@[k as int].0@);
                        }
                    }
                }
            }
            k += 1;
        }
    }
}

/// Adds every feature name referenced by any rule of the list to `out`.
#[verifier::loop_isolation(false)]
fn collect_rule_list_features(rules: &RuleList, out: &mut FeatureSet)
    ensures
        forall|name: Seq<char>|
            #[trigger] final(out).spec_contains(name) <==> (old(out).spec_contains(name) || exists|
                j: int,
            | 0 <= j < rules.0@.len() && spec_rule_references(#[trigger] rules.0@[j], name)),
{
    let m = rules.0.len();
    let mut j: usize = 0;
    while j < m
        invariant
            j <= m,
            forall|name: Seq<char>|
                #[trigger] out.spec_contains(name) <==> (old(out).spec_contains(name) || exists|
                    l: int,
                | 0 <= l < j && spec_rule_references(#[trigger] rules.0@[l], name)),
        decreases m - j,
    {
        let ghost at_rule = *out;
        collect_rule_features(&rules.0[j], out);
        proof {
            assert forall|name: Seq<char>|
                #[trigger] out.spec_contains(name) <==> (old(out).spec_contains(name) || exists|
                    l: int,
                | 0 <= l < j + 1 && spec_rule_references(#[trigger] rules.0@[l], name)) by {
                if out.spec_contains(name) {
                    assert(at_rule.spec_contains(name) || spec_rule_references(
                        rules.0@[j as int],
                        name,
                    ));
                }
                if exists|l: int| 0 <= l < j + 1 && spec_rule_references(
                    #[trigger] rules.0@[l],
                    name,
                ) {
                    let l = choose|l: int|
                        0 <= l < j + 1 && spec_rule_references(#[trigger] rules.0@[l], name);
                    if l < j {
                        assert(at_rule.spec_contains(name));
                    } else {
                        assert(spec_rule_references(rules.0@[j as int], name));
                    }
                }
            }
        }
        j += 1;
    }
}

/// Extends the feature-reference relation over a prefix by one entry.
proof fn lemma_references_step(arguments: Seq<Argument>, i: int, collected: FeatureSet)
    requires
        0 <= i < arguments.len(),
        forall|name: Seq<char>|
            #[trigger] collected.spec_contains(name) <==> (spec_references_feature(
                arguments.take(i),
                name,
            ) || spec_argument_references(arguments[i], name)),
    ensures
        forall|name: Seq<char>|
            #[trigger] collected.spec_contains(name) <==> spec_references_feature(
                arguments.take(i + 1),
                name,
            ),
{
    assert forall|name: Seq<char>|
        #[trigger] collected.spec_contains(name) <==> spec_references_feature(
            arguments.take(i + 1),
            name,
        ) by {
        if collected.spec_contains(name) {
            if spec_references_feature(arguments.take(i), name) {
                let a = choose|a: int|
                    0 <= a < arguments.take(i).len() && spec_argument_references(
                        #[trigger] arguments.take(i)[a],
                        name,
                    );
                assert(arguments.take(i + 1)[a] == arguments.take(i)[a]);
                assert(spec_references_feature(arguments.take(i + 1), name));
            } else {
                assert(arguments.take(i + 1)[i] == arguments[i]);
                assert(spec_references_feature(arguments.take(i + 1), name));
            }
        }
        if spec_references_feature(arguments.take(i + 1), name) {
            let a = choose|a: int|
                0 <= a < arguments.take(i + 1).len() && spec_argument_references(
                    #[trigger] arguments.take(i + 1)[a],
                    name,
                );
            if a < i {
                assert(arguments.take(i)[a] == arguments.take(i + 1)[a]);
                assert(spec_references_feature(arguments.take(i), name));
            } else {
                assert(arguments.take(i + 1)[a] == arguments[i]);
            }
        }
    }
}

/// Law: expansion preserves declared order and never reorders across
/// entries: the expansion of one list followed by another is the expansion
/// of the first followed by the expansion of the second.
pub proof fn lemma_construct_concat(
    front: Seq<Argument>,
    back: Seq<Argument>,
    platform: Platform,
    features: FeatureSet,
)
    ensures
        spec_construct_arguments(front + back, platform, features) == spec_construct_arguments(
            front,
            platform,
            features,
        ) + spec_construct_arguments(back, platform, features),
    decreases back.len(),
{
    if back.len() == 0 {
        assert(front + back =~= front);
        assert(spec_construct_arguments(front, platform, features) + spec_construct_arguments(
            back,
            platform,
            features,
        ) =~= spec_construct_arguments(front, platform, features));
    } else {
        lemma_construct_concat(front, back.drop_last(), platform, features);
        assert((front + back).drop_last() =~= front + back.drop_last());
        assert((front + back).last() == back.last());
        assert(spec_construct_arguments(front + back, platform, features)
            =~= spec_construct_arguments(front, platform, features) + spec_construct_arguments(
            back,
            platform,
            features,
        ));
    }
}

/// Law: a rule-guarded entry whose rules reject it contributes nothing to
/// the expansion.
pub proof fn lemma_rejected_entry_contributes_nothing(
    rules: RuleList,
    value: ArgumentValue,
    platform: Platform,
    features: FeatureSet,
)
    requires
        !spec_evaluate(rules.0@, platform, features),
    ensures
        spec_argument_strings(
            Argument::RuledArgument { rules, value },
            platform,
            features,
        ) == Seq::<Seq<char>>::empty(),
{
}

/// Law: a multi-valued rule-guarded entry whose rules permit it contributes
/// all of its values, in their declared order.
pub proof fn lemma_multi_value_expansion(
    rules: RuleList,
    values: Vec<String>,
    platform: Platform,
    features: FeatureSet,
)
    requires
        spec_evaluate(rules.0@, platform, features),
    ensures
        spec_argument_strings(
            Argument::RuledArgument { rules, value: ArgumentValue::Multiple(values) },
            platform,
            features,
        ) == values@.map_values(|s: String| s@),
{
}

} // verus!

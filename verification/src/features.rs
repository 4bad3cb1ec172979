//! The set of feature names considered active for a launch. Membership is
//! what the rule evaluator tests; enumeration happens only through the
//! separate introspection operation on argument lists.

use vstd::prelude::*;

use crate::text::str_eq;

verus! {

/// A set of feature-name strings, stored as a list; membership is by string
/// content, so duplicates are harmless.
#[derive(Debug)]
pub struct FeatureSet {
    pub names: Vec<String>,
}

impl FeatureSet {
    /// A feature is in the set when some stored name has its characters.
    pub open spec fn spec_contains(self, name: Seq<char>) -> bool {
        exists|i: int| 0 <= i < self.names@.len() && self.names@[i]@ == name
    }

    /// The empty feature set: no feature is active.
    pub fn empty() -> (r: FeatureSet)
        ensures
            forall|n: Seq<char>| !r.spec_contains(n),
    {
        FeatureSet { names: Vec::new() }
    }

    /// Membership test.
    pub fn contains(&self, name: &str) -> (r: bool)
        ensures
            r == self.spec_contains(name@),
    {
        let n = self.names.len();
        let mut i: usize = 0;
        while i < n
            invariant
                n == self.names@.len(),
                i <= n,
                forall|k: int| 0 <= k < i ==> self.names@[k]@ != name@,
            decreases n - i,
        {
            if str_eq(self.names[i].as_str(), name) {
                return true;
            }
            i += 1;
        }
        false
    }

    /// Adds a feature name; every previously present name stays present.
    pub fn insert(&mut self, name: String)
        ensures
            forall|n: Seq<char>|
                #[trigger] final(self).spec_contains(n) <==> (old(self).spec_contains(n) || n
                    == name@),
    {
        let ghost prior = self.names@;
        self.names.push(name);
        proof {
            assert forall|n: Seq<char>|
                #[trigger] self.spec_contains(n) <==> (old(self).spec_contains(n) || n
                    == name@) by {
                if self.spec_contains(n) {
                    let i = choose|i: int|
                        0 <= i < self.names@.len() && self.names@[i]@ == n;
                    if i < prior.len() {
                        assert(prior[i]@ == n);
                    }
                }
                if old(self).spec_contains(n) {
                    let i = choose|i: int| 0 <= i < prior.len() && prior[i]@ == n;
                    assert(self.names@[i]@ == n);
                }
                if n == name@ {
                    assert(self.names@[prior.len() as int]@ == n);
                }
            }
        }
    }
}

} // verus!

//! Assembly of the final launch invocation: JVM arguments, then the main
//! class, then game arguments, each with its placeholders substituted; and
//! the classpath string the `classpath` parameter is assigned from.

use vstd::prelude::*;

use crate::arguments::spec_construct_arguments;
use crate::features::FeatureSet;
use crate::params::{spec_substitute, LaunchParameters};
use crate::platform::Platform;
use crate::text::{join_with, spec_join};
use crate::version::Arguments;

verus! {

/// The fully substituted launch argument sequence: the expanded JVM
/// arguments, the main class name, and the expanded game arguments, in that
/// order, each rewritten by placeholder substitution.
pub open spec fn spec_launch_arguments(
    arguments: Arguments,
    main_class: Seq<char>,
    platform: Platform,
    features: FeatureSet,
    params: LaunchParameters,
) -> Seq<Seq<char>> {
    (spec_construct_arguments(arguments.jvm.0@, platform, features) + seq![main_class]
        + spec_construct_arguments(arguments.game.0@, platform, features)).map_values(
        |s: Seq<char>| spec_substitute(params, s),
    )
}

/// Builds the argument strings handed to the subprocess: JVM arguments,
/// the main class, then game arguments, each placeholder-substituted.
#[verifier::loop_isolation(false)]
pub fn launch_arguments(
    arguments: &Arguments,
    main_class: &str,
    platform: &Platform,
    features: &FeatureSet,
    params: &LaunchParameters,
) -> (result: Vec<String>)
    ensures
        result@.map_values(|s: String| s@) == spec_launch_arguments(
            *arguments,
            main_class@,
            *platform,
            *features,
            *params,
        ),
{
    let ghost jvm_part = spec_construct_arguments(arguments.jvm.0@, *platform, *features);
    let ghost game_part = spec_construct_arguments(arguments.game.0@, *platform, *features);
    let ghost combined = jvm_part + seq![main_class@] + game_part;
    let mut raw = arguments.jvm.construct_arguments(platform, features);
    raw.push(main_class.to_owned());
    let mut game_args = arguments.game.construct_arguments(platform, features);
    raw.append(&mut game_args);
    proof {
        assert(raw@.map_values(|s: String| s@) =~= combined);
    }
    let n = raw.len();
    let mut result: Vec<String> = Vec::new();
    let mut i: usize = 0;
    while i < n
        invariant
            i <= n,
            result@.len() == i,
            forall|k: int|
                0 <= k < i ==> (#[trigger] result@[k])@ == spec_substitute(*params, combined[k]),
        decreases n - i,
    {
        proof {
            assert(raw@.map_values(|s: String| s@)[i as int] == raw@[i as int]@);
        }
        result.push(params.replace(raw[i].as_str()));
        i += 1;
    }
    proof {
        assert(result@.map_values(|s: String| s@) =~= combined.map_values(
            |s: Seq<char>| spec_substitute(*params, s),
        ));
    }
    result
}

/// Joins classpath entries with `;`, the separator the launcher hands to
/// the Java runtime.
pub fn classpath(entries: &Vec<String>) -> (result: String)
    ensures
        result@ == spec_join(entries@.map_values(|s: String| s@), ";"@),
{
    join_with(entries, ";")
}

} // verus!

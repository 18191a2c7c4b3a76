//! Names under which a request's optional parameters override a charge's
//! parameters.
use vstd::prelude::*;
use vstd::string::StringExecFns;
use crate::recipe::{override_key_per_scenario, override_key_text, OverrideKey, Param, ScenarioParam};

verus! {

/// Name under which a request holds the override of `key` for the
/// scenario with suffix `suffix`: the key's stem, followed by the suffix
/// where the key is read per scenario.
pub open spec fn override_key_name_spec(key: OverrideKey, suffix: Seq<char>) -> Seq<char> {
    if override_key_per_scenario(key) {
        override_key_text(key) + suffix
    } else {
        override_key_text(key)
    }
}

/// Name under which a request holds the override of `key` for the
/// scenario with suffix `suffix`.
pub fn override_key_name(key: OverrideKey, suffix: &str) -> (name: String)
    ensures
        name@ == override_key_name_spec(key, suffix@),
{
    let mut name = key.stem().to_owned();
    if key.per_scenario() {
        name.append(suffix);
    }
    name
}

/// A scenario reads an override only under a name of its own: a key read
/// per scenario has different names in scenarios with different suffixes,
/// and any other key has the same name in every scenario.
pub proof fn lemma_override_names_per_scenario(key: OverrideKey, s1: Seq<char>, s2: Seq<char>)
    ensures
        override_key_per_scenario(key) ==> (override_key_name_spec(key, s1)
            == override_key_name_spec(key, s2) <==> s1 == s2),
        !override_key_per_scenario(key) ==> override_key_name_spec(key, s1)
            == override_key_name_spec(key, s2),
{
    let a = override_key_text(key);
    if override_key_per_scenario(key) && a + s1 == a + s2 {
        assert(s1 =~= (a + s1).subrange(a.len() as int, (a + s1).len() as int));
        assert(s2 =~= (a + s2).subrange(a.len() as int, (a + s2).len() as int));
    }
}

/// Where a charge parameter's value comes from: the override at an index
/// of the request's optional parameters, or a field of the scenario.
#[derive(Clone, Copy, Debug, PartialEq, Eq, Structural)]
pub enum ParamSource {
    Override(usize),
    Default(ScenarioParam),
}

/// Index of the first of the request's optional parameters, from index `i`
/// on, that is held under `name`.
pub open spec fn first_named_from(entries: Seq<(String, bool)>, name: Seq<char>, i: int) -> Option<int>
    decreases entries.len() - i,
{
    if i < 0 || i >= entries.len() {
        None
    } else if entries[i].0@ == name {
        Some(i)
    } else {
        first_named_from(entries, name, i + 1)
    }
}

/// Where a parameter's value comes from, for the scenario with suffix
/// `suffix`, given the request's optional parameters as their names, each
/// with whether its value reads as a value of the parameter: the first
/// override held under the parameter's name where that reads, and the
/// scenario's field otherwise (no override, or a malformed one).
pub open spec fn param_source_spec(param: Param, suffix: Seq<char>, entries: Seq<(String, bool)>) -> ParamSource {
    match first_named_from(entries, override_key_name_spec(param.key, suffix), 0) {
        Some(i) => if entries[i].1 {
            ParamSource::Override(i as usize)
        } else {
            ParamSource::Default(param.default)
        },
        None => ParamSource::Default(param.default),
    }
}

/// Where a parameter's value comes from (see `param_source_spec`). Each
/// entry of `entries` is an optional parameter's name and whether its value
/// reads as a value of the parameter.
pub fn param_source(param: Param, suffix: &str, entries: &Vec<(String, bool)>) -> (r: ParamSource)
    ensures
        r == param_source_spec(param, suffix@, entries@),
{
    let name = override_key_name(param.key, suffix);
    let mut i: usize = 0;
    while i < entries.len()
        invariant
            i <= entries.len(),
            name@ == override_key_name_spec(param.key, suffix@),
            first_named_from(entries@, name@, 0) == first_named_from(entries@, name@, i as int),
        decreases entries.len() - i,
    {
        if entries[i].0 == name {
            if entries[i].1 {
                return ParamSource::Override(i);
            } else {
                return ParamSource::Default(param.default);
            }
        }
        i = i + 1;
    }
    ParamSource::Default(param.default)
}

} // verus!

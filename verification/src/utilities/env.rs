use crate::utilities::environment::path_suffix;
use crate::utilities::snapshot::Snapshot;
use crate::utilities::source::{Source, SourceView};
use vstd::prelude::*;

verus! {

/// What the variable `name` is set to in `env`, or `default` where it is
/// not set at all.
pub open spec fn env_or(env: Map<Seq<char>, Seq<char>>, name: Seq<char>, default: Seq<char>) -> Seq<
    char,
> {
    if env.contains_key(name) {
        env[name]
    } else {
        default
    }
}

/// What the variable `name` is set to in `env`, unless it is missing or empty.
pub open spec fn env_option(env: Map<Seq<char>, Seq<char>>, name: Seq<char>) -> Option<Seq<char>> {
    if env.contains_key(name) && env[name].len() > 0 {
        Some(env[name])
    } else {
        None
    }
}

/// The secret that the variable `name` points to in `env`: its value, or
/// else the file named by the variable `name` with `_PATH` appended.
pub open spec fn env_source_option(env: Map<Seq<char>, Seq<char>>, name: Seq<char>) -> Option<
    SourceView,
> {
    match env_option(env, name) {
        Some(value) => Some(SourceView::Value(value)),
        None => match env_option(env, name + path_suffix()) {
            Some(path) => Some(SourceView::FilePath(path)),
            None => None,
        },
    }
}

/// Returns what the variable `var_name` is set to in `env`, or `default`
/// where it is not set at all.
pub fn get_env(env: &Snapshot, var_name: &str, default: &str) -> (result: String)
    ensures
        result@ == env_or(env@, var_name@, default@),
{
    match env.var(var_name) {
        Some(value) => value,
        None => default.to_owned(),
    }
}

/// Returns what the variable `var_name` is set to in `env`, and nothing
/// where it is missing or empty.
pub fn get_env_option(env: &Snapshot, var_name: &str) -> (result: Option<String>)
    ensures
        result.deep_view() == env_option(env@, var_name@),
{
    let value = get_env(env, var_name, "");
    if value.as_str().is_empty() {
        proof {
            reveal_strlit("");
        }
        None
    } else {
        proof {
            reveal_strlit("");
        }
        Some(value)
    }
}

/// Returns the secret that the variable `var_name` points to in `env`: its
/// value where it is set, else the file named by the variable of the same
/// name with `_PATH` appended.
pub fn get_env_source_option(env: &Snapshot, var_name: &str) -> (result: Option<Source>)
    ensures
        result.deep_view() == env_source_option(env@, var_name@),
{
    match get_env_option(env, var_name) {
        Some(value) => Some(Source::Value(value)),
        None => {
            let path_name = var_name.to_owned().concat("_PATH");
            match get_env_option(env, path_name.as_str()) {
                Some(path) => Some(Source::FilePath(path)),
                None => None,
            }
        },
    }
}

} // verus!

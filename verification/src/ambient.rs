//! Settings that the surrounding process hands down: the counted variables
//! of the environment and the text of the command-line parameters.

use vstd::prelude::*;
use crate::memory::{pair_texts, param_texts};

verus! {

/// The parameters that a text of quoted command-line parameters spells, each
/// with its value where it has one.
pub uninterp spec fn parameters_of(text: Seq<char>) -> Seq<(Seq<char>, Option<Seq<char>>)>;

/// The pairs of key and value that a set of variables spells through its
/// count variable and the numbered key and value variables.
pub uninterp spec fn configured_by(vars: Seq<(Seq<char>, Seq<char>)>) -> Seq<
    (Seq<char>, Seq<char>),
>;

/// Runs `git_config_env::ConfigParametersIter` over the text and collects
/// what it yields. Trusted: the parameters depend on the text alone.
#[verifier::external_body]
pub(crate) fn read_parameters(text: &str) -> (r: Vec<(String, Option<String>)>)
    ensures
        param_texts(r@) == parameters_of(text@),
{
    git_config_env::ConfigParametersIter::new(text)
        .map(|(k, v)| (k.into_owned(), v.map(|v| v.into_owned())))
        .collect()
}

/// Runs `git_config_env::ConfigEnv` over the given variables, in place of
/// the process environment, and collects what it yields. Trusted: the pairs
/// depend on the variables alone.
#[verifier::external_body]
pub(crate) fn read_environment(vars: Vec<(String, String)>) -> (r: Vec<(String, String)>)
    ensures
        pair_texts(r@) == configured_by(pair_texts(vars@)),
{
    let env: git_config_env::ConfigEnv<std::collections::HashMap<String, String>> =
        vars.into_iter().collect();
    env.iter().map(|(k, v)| (k.into_owned(), v.into_owned())).collect()
}

} // verus!

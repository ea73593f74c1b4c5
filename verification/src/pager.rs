//! The command that pages the output, worked out from its setting.

use vstd::prelude::*;
use crate::memory::{pair_texts, texts};

verus! {

/// The words that a command line splits into by the rules of the shell.
pub uninterp spec fn shell_words(line: Seq<char>) -> Seq<Seq<char>>;

/// Collects the words that `shlex::Shlex` yields for the line. Trusted: the
/// words depend on the line alone.
#[verifier::external_body]
pub(crate) fn split_words(line: &str) -> (r: Vec<String>)
    ensures
        texts(r@) == shell_words(line@),
{
    shlex::Shlex::new(line).collect()
}

/// A pager to start: the program, its arguments, and the variables to set
/// for it.
#[derive(Debug, PartialEq, Eq)]
pub struct PagerCommand {
    pub program: String,
    pub args: Vec<String>,
    pub env: Vec<(String, String)>,
}

/// The variables set for a pager: the character set always, the two
/// defaults only where the surrounding environment does not set them.
pub open spec fn pager_env(ambient: Seq<Seq<char>>) -> Seq<(Seq<char>, Seq<char>)> {
    let less: Seq<(Seq<char>, Seq<char>)> = if ambient.contains("LESS"@) {
        Seq::empty()
    } else {
        seq![("LESS"@, "FRX"@)]
    };
    let lv: Seq<(Seq<char>, Seq<char>)> = if ambient.contains("LV"@) {
        Seq::empty()
    } else {
        seq![("LV"@, "-c"@)]
    };
    seq![("LESSCHARSET"@, "UTF-8"@)] + less + lv
}

/// What the words of a command line ask for: no pager where there is no
/// word or the first is `cat`, else the first word as the program and the
/// rest as its arguments.
pub open spec fn planned(
    words: Seq<Seq<char>>,
    ambient: Seq<Seq<char>>,
    r: Option<PagerCommand>,
) -> bool {
    if words.len() == 0 || words[0] == "cat"@ {
        r is None
    } else {
        match r {
            Some(c) => c.program@ == words[0] && texts(c.args@) == words.skip(1) && pair_texts(
                c.env@,
            ) == pager_env(ambient),
            None => false,
        }
    }
}

fn is_listed(names: &Vec<String>, name: &str) -> (r: bool)
    ensures
        r == texts(names@).contains(name@),
{
    let wanted = name.to_owned();
    let mut i: usize = 0;
    while i < names.len()
        invariant
            i <= names.len(),
            wanted@ == name@,
            forall|k: int| 0 <= k < i ==> texts(names@)[k] != name@,
        decreases names.len() - i,
    {
        if names[i] == wanted {
            assert(texts(names@)[i as int] == name@);
            return true;
        }
        i += 1;
    }
    false
}

/// The variables to set for a pager, given the names that the surrounding
/// environment already sets.
pub fn environment_for(ambient: &Vec<String>) -> (r: Vec<(String, String)>)
    ensures
        pair_texts(r@) == pager_env(texts(ambient@)),
{
    let mut env: Vec<(String, String)> = Vec::new();
    env.push(("LESSCHARSET".to_owned(), "UTF-8".to_owned()));
    if !is_listed(ambient, "LESS") {
        env.push(("LESS".to_owned(), "FRX".to_owned()));
    }
    if !is_listed(ambient, "LV") {
        env.push(("LV".to_owned(), "-c".to_owned()));
    }
    assert(pair_texts(env@) =~= pager_env(texts(ambient@)));
    env
}

/// The pager that the words of a command line ask for.
pub fn command_from(words: Vec<String>, ambient: &Vec<String>) -> (r: Option<PagerCommand>)
    ensures
        planned(texts(words@), texts(ambient@), r),
{
    let mut words = words;
    let ghost all = texts(words@);
    if words.len() == 0 {
        return None;
    }
    let program = words.remove(0);
    assert(program@ == all[0]);
    if program == "cat".to_owned() {
        return None;
    }
    assert(texts(words@) =~= all.skip(1));
    Some(PagerCommand { program, args: words, env: environment_for(ambient) })
}

/// Works out the pager from the text of its setting: splits the text as a
/// shell would and reads the words.
pub fn parse(args: &str, ambient: &Vec<String>) -> (r: Option<PagerCommand>)
    ensures
        planned(shell_words(args@), texts(ambient@), r),
{
    command_from(split_words(args), ambient)
}

} // verus!

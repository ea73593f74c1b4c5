//! A store of settings held in memory, several values to a key.

use vstd::prelude::*;
use crate::error::ConfigError;
use crate::source::{ConfigSource, text_result};
use crate::ambient::{configured_by, parameters_of, read_environment, read_parameters};
use crate::text::{bool_of_text, i32_of_text, i64_of_text, path_of_text};
use crate::text::{parse_bool, parse_i32, parse_i64, path_from_text};

verus! {

/// One key with every value given for it, oldest first.
struct Entry {
    key: String,
    values: Vec<String>,
}

/// Strings as texts.
pub open spec fn texts(v: Seq<String>) -> Seq<Seq<char>> {
    Seq::new(v.len(), |i: int| v[i]@)
}

/// The values that a run of pairs gives for one key, in the order of the pairs.
pub open spec fn values_of(pairs: Seq<(Seq<char>, Seq<char>)>, key: Seq<char>) -> Seq<
    Seq<char>,
>
    decreases pairs.len(),
{
    if pairs.len() == 0 {
        Seq::empty()
    } else if pairs.last().0 == key {
        values_of(pairs.drop_last(), key).push(pairs.last().1)
    } else {
        values_of(pairs.drop_last(), key)
    }
}

/// Pairs of strings as pairs of texts.
pub open spec fn pair_texts(pairs: Seq<(String, String)>) -> Seq<(Seq<char>, Seq<char>)> {
    Seq::new(pairs.len(), |i: int| (pairs[i].0@, pairs[i].1@))
}

/// Parameters as texts, each with its value where it has one.
pub open spec fn param_texts(params: Seq<(String, Option<String>)>) -> Seq<
    (Seq<char>, Option<Seq<char>>),
> {
    Seq::new(
        params.len(),
        |i: int|
            (
                params[i].0@,
                match params[i].1 {
                    Some(v) => Some(v@),
                    None => None,
                },
            ),
    )
}

spec fn holds_key(entries: Seq<Entry>, key: Seq<char>) -> bool {
    exists|i: int| 0 <= i < entries.len() && #[trigger] entries[i].key@ == key
}

/// The values that the entries hold for a key; none where no entry has it.
spec fn stored(entries: Seq<Entry>, key: Seq<char>) -> Seq<Seq<char>> {
    if holds_key(entries, key) {
        let i = choose|i: int| 0 <= i < entries.len() && #[trigger] entries[i].key@ == key;
        texts(entries[i].values@)
    } else {
        Seq::empty()
    }
}

/// No key stands twice, and every entry has at least one value.
spec fn well_kept(entries: Seq<Entry>) -> bool {
    &&& forall|i: int| 0 <= i < entries.len() ==> (#[trigger] entries[i]).values.len() > 0
    &&& forall|i: int, j: int|
        0 <= i < j < entries.len() ==> (#[trigger] entries[i]).key@ != (#[trigger] entries[j]).key@
}

proof fn stored_at(entries: Seq<Entry>, j: int)
    requires
        well_kept(entries),
        0 <= j < entries.len(),
    ensures
        stored(entries, entries[j].key@) == texts(entries[j].values@),
{
    let key = entries[j].key@;
    assert(holds_key(entries, key));
    let i = choose|i: int| 0 <= i < entries.len() && #[trigger] entries[i].key@ == key;
    if i < j {
        assert(entries[i].key@ != entries[j].key@);
    } else if j < i {
        assert(entries[j].key@ != entries[i].key@);
    }
}

/// The place of a key among the entries, if it has one.
fn position(entries: &Vec<Entry>, key: &String) -> (r: Option<usize>)
    ensures
        match r {
            Some(j) => j < entries.len() && entries[j as int].key@ == key@,
            None => !holds_key(entries@, key@),
        },
{
    let mut i: usize = 0;
    while i < entries.len()
        invariant
            i <= entries.len(),
            forall|k: int| 0 <= k < i ==> (#[trigger] entries[k]).key@ != key@,
        decreases entries.len() - i,
    {
        if entries[i].key == *key {
            return Some(i);
        }
        i += 1;
    }
    None
}

/// Adds one value under its key: to the key's entry where there is one, else
/// in a new entry.
fn record(entries: &mut Vec<Entry>, key: String, value: String)
    requires
        well_kept(old(entries)@),
    ensures
        well_kept(final(entries)@),
        stored(final(entries)@, key@) == stored(old(entries)@, key@).push(value@),
        forall|other: Seq<char>|
            other != key@ ==> stored(final(entries)@, other) == stored(old(entries)@, other),
{
    let ghost before = entries@;
    match position(entries, &key) {
        Some(j) => {
            entries[j].values.push(value);
            proof {
                let after = entries@;
                assert(after.len() == before.len());
                assert forall|i: int| 0 <= i < after.len() implies (#[trigger] after[i]).key@
                    == before[i].key@ by {}
                assert(well_kept(after));
                stored_at(before, j as int);
                stored_at(after, j as int);
                assert(texts(after[j as int].values@) =~= texts(before[j as int].values@).push(
                    value@,
                ));
                assert forall|other: Seq<char>| other != key@ implies stored(after, other)
                    == stored(before, other) by {
                    same_elsewhere(before, after, j as int, other);
                }
            }
        },
        None => {
            entries.push(Entry { key, values: vec![value] });
            proof {
                let after = entries@;
                let last = before.len() as int;
                assert forall|i: int| 0 <= i < before.len() implies (#[trigger] after[i])
                    == before[i] by {}
                assert(well_kept(after)) by {
                    assert forall|i: int, j: int| 0 <= i < j < after.len() implies (
                    #[trigger] after[i]).key@ != (#[trigger] after[j]).key@ by {
                        if j == last {
                            assert(before[i].key@ != key@);
                        }
                    }
                }
                stored_at(after, last);
                assert(texts(after[last].values@) =~= Seq::<Seq<char>>::empty().push(value@));
                assert forall|other: Seq<char>| other != key@ implies stored(after, other)
                    == stored(before, other) by {
                    grown_elsewhere(before, after, other);
                }
            }
        },
    }
}

proof fn same_elsewhere(before: Seq<Entry>, after: Seq<Entry>, j: int, other: Seq<char>)
    requires
        well_kept(before),
        well_kept(after),
        0 <= j < before.len(),
        after.len() == before.len(),
        before[j].key@ != other,
        forall|i: int| 0 <= i < before.len() ==> (#[trigger] after[i]).key@ == before[i].key@,
        forall|i: int| 0 <= i < before.len() && i != j ==> (#[trigger] after[i]) == before[i],
    ensures
        stored(after, other) == stored(before, other),
{
    if holds_key(before, other) {
        let i = choose|i: int| 0 <= i < before.len() && #[trigger] before[i].key@ == other;
        assert(after[i] == before[i]);
        stored_at(before, i);
        stored_at(after, i);
    } else {
        if holds_key(after, other) {
            let i = choose|i: int| 0 <= i < after.len() && #[trigger] after[i].key@ == other;
            assert(before[i].key@ == other);
        }
    }
}

proof fn grown_elsewhere(before: Seq<Entry>, after: Seq<Entry>, other: Seq<char>)
    requires
        well_kept(before),
        well_kept(after),
        after.len() == before.len() + 1,
        after[before.len() as int].key@ != other,
        forall|i: int| 0 <= i < before.len() ==> (#[trigger] after[i]) == before[i],
    ensures
        stored(after, other) == stored(before, other),
{
    if holds_key(before, other) {
        let i = choose|i: int| 0 <= i < before.len() && #[trigger] before[i].key@ == other;
        assert(after[i] == before[i]);
        stored_at(before, i);
        stored_at(after, i);
    } else {
        if holds_key(after, other) {
            let i = choose|i: int| 0 <= i < after.len() && #[trigger] after[i].key@ == other;
            if i < before.len() {
                assert(before[i].key@ == other);
            }
        }
    }
}

/// Settings held in memory under a name of their own. A key may have been
/// given several values; they are kept in the order in which they came.
pub struct InMemoryConfig {
    name: String,
    entries: Vec<Entry>,
}

impl InMemoryConfig {
    #[verifier::type_invariant]
    spec fn kept(&self) -> bool {
        well_kept(self.entries@)
    }

    /// The name the store was made with.
    pub closed spec fn label(&self) -> Seq<char> {
        self.name@
    }

    /// Every value held for a key, oldest first; empty where the key is absent.
    pub closed spec fn values(&self, key: Seq<char>) -> Seq<Seq<char>> {
        stored(self.entries@, key)
    }

    /// The value that a lookup of the key sees: the one given last.
    pub open spec fn last_value(&self, key: Seq<char>) -> Option<Seq<char>> {
        if self.values(key).len() > 0 {
            Some(self.values(key).last())
        } else {
            None
        }
    }

    /// Builds the store from pairs of key and value, keeping every value of
    /// a key that is given more than once.
    pub fn from_env(name: &str, env: Vec<(String, String)>) -> (r: Self)
        ensures
            r.label() == name@,
            forall|key: Seq<char>| r.values(key) == values_of(pair_texts(env@), key),
    {
        let mut entries: Vec<Entry> = Vec::new();
        let mut i: usize = 0;
        let ghost all = pair_texts(env@);
        assert forall|key: Seq<char>| stored(entries@, key) == values_of(all.take(0), key) by {
            assert(!holds_key(entries@, key));
        }
        while i < env.len()
            invariant
                i <= env.len(),
                well_kept(entries@),
                all == pair_texts(env@),
                forall|key: Seq<char>| stored(entries@, key) == values_of(all.take(i as int), key),
            decreases env.len() - i,
        {
            let ghost before = entries@;
            let key = env[i].0.clone();
            let value = env[i].1.clone();
            record(&mut entries, key, value);
            proof {
                let upto = all.take(i as int + 1);
                assert(upto.drop_last() =~= all.take(i as int));
                assert(upto.last() == all[i as int]);
                assert forall|k: Seq<char>| stored(entries@, k) == values_of(upto, k) by {
                    assert(stored(before, k) == values_of(all.take(i as int), k));
                }
            }
            i += 1;
        }
        assert(all.take(env.len() as int) =~= all);
        InMemoryConfig { name: name.to_owned(), entries }
    }
}

/// Pairs for the store of command-line overrides: a parameter given without
/// a value counts as the text `true`.
pub open spec fn flags_as_true(params: Seq<(Seq<char>, Option<Seq<char>>)>) -> Seq<
    (Seq<char>, Seq<char>),
> {
    Seq::new(
        params.len(),
        |i: int|
            (
                params[i].0,
                match params[i].1 {
                    Some(v) => v,
                    None => "true"@,
                },
            ),
    )
}

/// Turns command-line parameters into pairs, writing `true` for each bare flag.
pub fn cli_pairs(params: Vec<(String, Option<String>)>) -> (r: Vec<(String, String)>)
    ensures
        pair_texts(r@) == flags_as_true(param_texts(params@)),
{
    let mut out: Vec<(String, String)> = Vec::new();
    let mut i: usize = 0;
    while i < params.len()
        invariant
            i <= params.len(),
            out.len() == i,
            forall|k: int|
                0 <= k < i ==> (#[trigger] out[k].0@, out[k].1@) == flags_as_true(
                    param_texts(params@),
                )[k],
        decreases params.len() - i,
    {
        let key = params[i].0.clone();
        let value = match &params[i].1 {
            Some(v) => v.clone(),
            None => "true".to_owned(),
        };
        out.push((key, value));
        i += 1;
    }
    assert(pair_texts(out@) =~= flags_as_true(param_texts(params@)));
    out
}

impl InMemoryConfig {
    /// The store of settings given through the environment: the pairs that
    /// the counted key and value variables among `vars` spell out.
    pub fn git_env(vars: Vec<(String, String)>) -> (r: Self)
        ensures
            r.label() == "git-config-env"@,
            forall|key: Seq<char>|
                r.values(key) == values_of(configured_by(pair_texts(vars@)), key),
    {
        Self::from_env("git-config-env", read_environment(vars))
    }

    /// The store of command-line overrides, from the text in which the
    /// parameters are handed down; a bare flag reads as `true`.
    pub fn git_cli(parameters: &str) -> (r: Self)
        ensures
            r.label() == "git-cli"@,
            forall|key: Seq<char>|
                r.values(key) == values_of(flags_as_true(parameters_of(parameters@)), key),
    {
        Self::from_env("git-cli", cli_pairs(read_parameters(parameters)))
    }

    /// What a plain lookup of the key gives: the last value, or that the key
    /// is missing.
    pub open spec fn reads_str(&self, key: Seq<char>) -> Result<Seq<char>, ConfigError> {
        match self.last_value(key) {
            Some(t) => Ok(t),
            None => Err(ConfigError::Missing),
        }
    }

    /// What the key gives as text. A key that is present without any text is
    /// a flag, and a flag has no text to give.
    pub open spec fn reads_string(&self, key: Seq<char>) -> Result<Seq<char>, ConfigError> {
        match self.last_value(key) {
            Some(t) => if t.len() == 0 {
                Err(ConfigError::Unparseable)
            } else {
                Ok(t)
            },
            None => Err(ConfigError::Missing),
        }
    }

    /// What the key gives as a boolean. A flag, present without text, is true.
    pub open spec fn reads_bool(&self, key: Seq<char>) -> Result<bool, ConfigError> {
        match self.last_value(key) {
            Some(t) => if t.len() == 0 {
                Ok(true)
            } else {
                match bool_of_text(t) {
                    Some(b) => Ok(b),
                    None => Err(ConfigError::Unparseable),
                }
            },
            None => Err(ConfigError::Missing),
        }
    }

    pub open spec fn reads_i32(&self, key: Seq<char>) -> Result<i32, ConfigError> {
        match self.last_value(key) {
            Some(t) => match i32_of_text(t) {
                Some(n) => Ok(n),
                None => Err(ConfigError::Unparseable),
            },
            None => Err(ConfigError::Missing),
        }
    }

    pub open spec fn reads_i64(&self, key: Seq<char>) -> Result<i64, ConfigError> {
        match self.last_value(key) {
            Some(t) => match i64_of_text(t) {
                Some(n) => Ok(n),
                None => Err(ConfigError::Unparseable),
            },
            None => Err(ConfigError::Missing),
        }
    }

    pub open spec fn reads_path(&self, key: Seq<char>) -> Result<
        std::path::PathBuf,
        ConfigError,
    > {
        match self.reads_string(key) {
            Ok(t) => Ok(path_of_text(t)),
            Err(e) => Err(e),
        }
    }

    /// Looks the key up and hands out its last value as it was stored.
    pub fn get_str(&self, name: &str) -> (r: Result<&str, ConfigError>)
        ensures
            match r {
                Ok(t) => self.reads_str(name@) == Ok::<Seq<char>, ConfigError>(t@),
                Err(e) => self.reads_str(name@) == Err::<Seq<char>, ConfigError>(e),
            },
    {
        proof {
            use_type_invariant(self);
        }
        let key = name.to_owned();
        match position(&self.entries, &key) {
            Some(j) => {
                proof {
                    stored_at(self.entries@, j as int);
                }
                let values = &self.entries[j].values;
                Ok(values[values.len() - 1].as_str())
            },
            None => Err(ConfigError::Missing),
        }
    }
}

impl Default for InMemoryConfig {
    /// An empty store named `null`.
    fn default() -> (r: Self)
        ensures
            r.label() == "null"@,
            forall|key: Seq<char>| r.values(key).len() == 0,
    {
        let entries: Vec<Entry> = Vec::new();
        assert forall|key: Seq<char>| stored(entries@, key).len() == 0 by {
            assert(!holds_key(entries@, key));
        }
        InMemoryConfig { name: "null".to_owned(), entries }
    }
}

impl ConfigSource for InMemoryConfig {
    open spec fn yields_bool(&self, name: Seq<char>, r: Result<bool, ConfigError>) -> bool {
        r == self.reads_bool(name)
    }

    open spec fn yields_i32(&self, name: Seq<char>, r: Result<i32, ConfigError>) -> bool {
        r == self.reads_i32(name)
    }

    open spec fn yields_i64(&self, name: Seq<char>, r: Result<i64, ConfigError>) -> bool {
        r == self.reads_i64(name)
    }

    open spec fn yields_string(&self, name: Seq<char>, r: Result<String, ConfigError>) -> bool {
        text_result(r) == self.reads_string(name)
    }

    open spec fn yields_path(
        &self,
        name: Seq<char>,
        r: Result<std::path::PathBuf, ConfigError>,
    ) -> bool {
        r == self.reads_path(name)
    }

    open spec fn source_name(&self) -> Seq<char> {
        self.label()
    }

    fn name(&self) -> (r: &str) {
        self.name.as_str()
    }

    fn get_bool(&self, name: &str) -> (r: Result<bool, ConfigError>) {
        match self.get_str(name) {
            Ok(t) => {
                if t.is_empty() {
                    Ok(true)
                } else {
                    match parse_bool(t) {
                        Some(b) => Ok(b),
                        None => Err(ConfigError::Unparseable),
                    }
                }
            },
            Err(e) => Err(e),
        }
    }

    fn get_i32(&self, name: &str) -> (r: Result<i32, ConfigError>) {
        match self.get_str(name) {
            Ok(t) => match parse_i32(t) {
                Some(n) => Ok(n),
                None => Err(ConfigError::Unparseable),
            },
            Err(e) => Err(e),
        }
    }

    fn get_i64(&self, name: &str) -> (r: Result<i64, ConfigError>) {
        match self.get_str(name) {
            Ok(t) => match parse_i64(t) {
                Some(n) => Ok(n),
                None => Err(ConfigError::Unparseable),
            },
            Err(e) => Err(e),
        }
    }

    fn get_string(&self, name: &str) -> (r: Result<String, ConfigError>) {
        match self.get_str(name) {
            Ok(t) => {
                if t.is_empty() {
                    Err(ConfigError::Unparseable)
                } else {
                    Ok(t.to_owned())
                }
            },
            Err(e) => Err(e),
        }
    }

    fn get_path(&self, name: &str) -> (r: Result<std::path::PathBuf, ConfigError>) {
        match self.get_string(name) {
            Ok(t) => Ok(path_from_text(t.as_str())),
            Err(e) => Err(e),
        }
    }
}

} // verus!

//! The resolver: every source in its order of precedence.

use vstd::prelude::*;
use crate::error::ConfigError;
use crate::ambient::{configured_by, parameters_of};
use crate::memory::{flags_as_true, pair_texts, values_of, InMemoryConfig};
use crate::source::{ConfigSource, text_result};

verus! {

/// One of the resolver's sources, borrowed.
pub enum Source<'a> {
    Memory(&'a InMemoryConfig),
    Store(&'a git2::Config),
}

impl<'a> ConfigSource for Source<'a> {
    open spec fn yields_bool(&self, name: Seq<char>, r: Result<bool, ConfigError>) -> bool {
        match self {
            Source::Memory(m) => m.yields_bool(name, r),
            Source::Store(s) => s.yields_bool(name, r),
        }
    }

    open spec fn yields_i32(&self, name: Seq<char>, r: Result<i32, ConfigError>) -> bool {
        match self {
            Source::Memory(m) => m.yields_i32(name, r),
            Source::Store(s) => s.yields_i32(name, r),
        }
    }

    open spec fn yields_i64(&self, name: Seq<char>, r: Result<i64, ConfigError>) -> bool {
        match self {
            Source::Memory(m) => m.yields_i64(name, r),
            Source::Store(s) => s.yields_i64(name, r),
        }
    }

    open spec fn yields_string(&self, name: Seq<char>, r: Result<String, ConfigError>) -> bool {
        match self {
            Source::Memory(m) => m.yields_string(name, r),
            Source::Store(s) => s.yields_string(name, r),
        }
    }

    open spec fn yields_path(
        &self,
        name: Seq<char>,
        r: Result<std::path::PathBuf, ConfigError>,
    ) -> bool {
        match self {
            Source::Memory(m) => m.yields_path(name, r),
            Source::Store(s) => s.yields_path(name, r),
        }
    }

    open spec fn source_name(&self) -> Seq<char> {
        match self {
            Source::Memory(m) => m.source_name(),
            Source::Store(s) => s.source_name(),
        }
    }

    fn name(&self) -> (r: &str) {
        match self {
            Source::Memory(m) => m.name(),
            Source::Store(s) => ConfigSource::name(*s),
        }
    }

    fn get_bool(&self, name: &str) -> (r: Result<bool, ConfigError>) {
        match self {
            Source::Memory(m) => m.get_bool(name),
            Source::Store(s) => ConfigSource::get_bool(*s, name),
        }
    }

    fn get_i32(&self, name: &str) -> (r: Result<i32, ConfigError>) {
        match self {
            Source::Memory(m) => m.get_i32(name),
            Source::Store(s) => ConfigSource::get_i32(*s, name),
        }
    }

    fn get_i64(&self, name: &str) -> (r: Result<i64, ConfigError>) {
        match self {
            Source::Memory(m) => m.get_i64(name),
            Source::Store(s) => ConfigSource::get_i64(*s, name),
        }
    }

    fn get_string(&self, name: &str) -> (r: Result<String, ConfigError>) {
        match self {
            Source::Memory(m) => m.get_string(name),
            Source::Store(s) => ConfigSource::get_string(*s, name),
        }
    }

    fn get_path(&self, name: &str) -> (r: Result<std::path::PathBuf, ConfigError>) {
        match self {
            Source::Memory(m) => m.get_path(name),
            Source::Store(s) => ConfigSource::get_path(*s, name),
        }
    }
}

/// Which results the resolver may give, from what its two sources in memory
/// read and whether it has a store besides.
///
/// The first source that succeeds decides, in the order command line,
/// environment, stores. Where every source fails, the failure is that of the
/// command line, the first source, whatever the others said.
pub open spec fn settles<T>(
    cli: Result<T, ConfigError>,
    env: Result<T, ConfigError>,
    stores: bool,
    r: Result<T, ConfigError>,
) -> bool {
    match cli {
        Ok(v) => r == Ok::<T, ConfigError>(v),
        Err(e) => match env {
            Ok(v) => r == Ok::<T, ConfigError>(v),
            Err(_) => r == Err::<T, ConfigError>(e) || (stores && r is Ok),
        },
    }
}

/// The first success among outcomes in their order, if there is one.
pub open spec fn first_ok<T>(outcomes: Seq<Result<T, ConfigError>>) -> Option<T>
    decreases outcomes.len(),
{
    if outcomes.len() == 0 {
        None
    } else {
        match outcomes[0] {
            Ok(v) => Some(v),
            Err(_) => first_ok(outcomes.skip(1)),
        }
    }
}

/// What asking sources in turn comes to, given what each would answer: the
/// first success, or else the failure of the first source.
pub open spec fn first_success<T>(outcomes: Seq<Result<T, ConfigError>>) -> Result<
    T,
    ConfigError,
> {
    match first_ok(outcomes) {
        Some(v) => Ok(v),
        None => outcomes[0],
    }
}

/// Settles the answers of sources that were all asked, highest precedence
/// first.
pub fn first_of<T>(outcomes: Vec<Result<T, ConfigError>>) -> (r: Result<T, ConfigError>)
    requires
        outcomes.len() > 0,
    ensures
        r == first_success(outcomes@),
{
    let mut rest = outcomes;
    let first = rest.remove(0);
    match first {
        Ok(v) => Ok(v),
        Err(e) => {
            assert(rest@ =~= outcomes@.skip(1));
            while rest.len() > 0
                invariant
                    first_ok(rest@) == first_ok(outcomes@),
                decreases rest.len(),
            {
                let ghost before = rest@;
                let next = rest.remove(0);
                assert(rest@ =~= before.skip(1));
                if let Ok(v) = next {
                    return Ok(v);
                }
            }
            Err(e)
        },
    }
}

/// The layered configuration: command-line overrides, then the environment,
/// then the repository's store, then the system's.
pub struct Config {
    system: Option<git2::Config>,
    repo: Option<git2::Config>,
    env: InMemoryConfig,
    cli: InMemoryConfig,
}

impl Config {
    pub closed spec fn cli_source(&self) -> InMemoryConfig {
        self.cli
    }

    pub closed spec fn env_source(&self) -> InMemoryConfig {
        self.env
    }

    pub closed spec fn repo_store(&self) -> Option<git2::Config> {
        self.repo
    }

    pub closed spec fn system_store(&self) -> Option<git2::Config> {
        self.system
    }

    pub open spec fn has_store(&self) -> bool {
        self.repo_store() is Some || self.system_store() is Some
    }

    /// The sources in their order of precedence; the two in memory are
    /// always there, so the list is never empty.
    pub open spec fn source_list(&self) -> Seq<Source<'_>> {
        let memory = seq![Source::Memory(&self.cli_source()), Source::Memory(&self.env_source())];
        let repo = match self.repo_store() {
            Some(s) => seq![Source::Store(&s)],
            None => Seq::empty(),
        };
        let system = match self.system_store() {
            Some(s) => seq![Source::Store(&s)],
            None => Seq::empty(),
        };
        memory + repo + system
    }

    /// The configuration outside any repository, from what the process was
    /// handed: the system's store where one could be opened, the variables
    /// of the environment, and the text of the command-line parameters.
    pub fn system(
        system: Option<git2::Config>,
        vars: Vec<(String, String)>,
        parameters: &str,
    ) -> (r: Self)
        ensures
            r.system_store() == system,
            r.repo_store() is None,
            r.env_source().label() == "git-config-env"@,
            r.cli_source().label() == "git-cli"@,
            forall|key: Seq<char>|
                r.env_source().values(key) == values_of(configured_by(pair_texts(vars@)), key),
            forall|key: Seq<char>|
                r.cli_source().values(key) == values_of(
                    flags_as_true(parameters_of(parameters@)),
                    key,
                ),
    {
        let env = InMemoryConfig::git_env(vars);
        let cli = InMemoryConfig::git_cli(parameters);
        Config { system, repo: None, env, cli }
    }

    /// A configuration over the given sources, with no repository yet.
    pub fn from_sources(
        system: Option<git2::Config>,
        env: InMemoryConfig,
        cli: InMemoryConfig,
    ) -> (r: Self)
        ensures
            r.cli_source() == cli,
            r.env_source() == env,
            r.system_store() == system,
            r.repo_store() is None,
    {
        Config { system, repo: None, env, cli }
    }

    /// Sets the repository's store, or takes it away.
    pub fn add_repo(&mut self, repo: Option<git2::Config>)
        ensures
            final(self).repo_store() == repo,
            final(self).cli_source() == old(self).cli_source(),
            final(self).env_source() == old(self).env_source(),
            final(self).system_store() == old(self).system_store(),
    {
        self.repo = repo;
    }

    pub fn sources(&self) -> (r: Vec<Source<'_>>)
        ensures
            r@ == self.source_list(),
    {
        let mut out: Vec<Source<'_>> = Vec::new();
        out.push(Source::Memory(&self.cli));
        out.push(Source::Memory(&self.env));
        if let Some(s) = &self.repo {
            out.push(Source::Store(s));
        }
        if let Some(s) = &self.system {
            out.push(Source::Store(s));
        }
        assert(out@ =~= self.source_list());
        out
    }
}

impl ConfigSource for Config {
    open spec fn yields_bool(&self, name: Seq<char>, r: Result<bool, ConfigError>) -> bool {
        settles(
            self.cli_source().reads_bool(name),
            self.env_source().reads_bool(name),
            self.has_store(),
            r,
        )
    }

    open spec fn yields_i32(&self, name: Seq<char>, r: Result<i32, ConfigError>) -> bool {
        settles(
            self.cli_source().reads_i32(name),
            self.env_source().reads_i32(name),
            self.has_store(),
            r,
        )
    }

    open spec fn yields_i64(&self, name: Seq<char>, r: Result<i64, ConfigError>) -> bool {
        settles(
            self.cli_source().reads_i64(name),
            self.env_source().reads_i64(name),
            self.has_store(),
            r,
        )
    }

    open spec fn yields_string(&self, name: Seq<char>, r: Result<String, ConfigError>) -> bool {
        settles(
            self.cli_source().reads_string(name),
            self.env_source().reads_string(name),
            self.has_store(),
            text_result(r),
        )
    }

    open spec fn yields_path(
        &self,
        name: Seq<char>,
        r: Result<std::path::PathBuf, ConfigError>,
    ) -> bool {
        settles(
            self.cli_source().reads_path(name),
            self.env_source().reads_path(name),
            self.has_store(),
            r,
        )
    }

    open spec fn source_name(&self) -> Seq<char> {
        "git"@
    }

    fn name(&self) -> (r: &str) {
        "git"
    }

    fn get_bool(&self, name: &str) -> (r: Result<bool, ConfigError>) {
        let sources = self.sources();
        let mut i: usize = 0;
        while i < sources.len()
            invariant
                i <= sources.len(),
                sources@ == self.source_list(),
                i > 0 ==> self.cli.reads_bool(name@) is Err,
                i > 1 ==> self.env.reads_bool(name@) is Err,
            decreases sources.len() - i,
        {
            let found = sources[i].get_bool(name);
            if let Ok(v) = found {
                return Ok(v);
            }
            i += 1;
        }
        sources[0].get_bool(name)
    }

    fn get_i32(&self, name: &str) -> (r: Result<i32, ConfigError>) {
        let sources = self.sources();
        let mut i: usize = 0;
        while i < sources.len()
            invariant
                i <= sources.len(),
                sources@ == self.source_list(),
                i > 0 ==> self.cli.reads_i32(name@) is Err,
                i > 1 ==> self.env.reads_i32(name@) is Err,
            decreases sources.len() - i,
        {
            let found = sources[i].get_i32(name);
            if let Ok(v) = found {
                return Ok(v);
            }
            i += 1;
        }
        sources[0].get_i32(name)
    }

    fn get_i64(&self, name: &str) -> (r: Result<i64, ConfigError>) {
        let sources = self.sources();
        let mut i: usize = 0;
        while i < sources.len()
            invariant
                i <= sources.len(),
                sources@ == self.source_list(),
                i > 0 ==> self.cli.reads_i64(name@) is Err,
                i > 1 ==> self.env.reads_i64(name@) is Err,
            decreases sources.len() - i,
        {
            let found = sources[i].get_i64(name);
            if let Ok(v) = found {
                return Ok(v);
            }
            i += 1;
        }
        sources[0].get_i64(name)
    }

    fn get_string(&self, name: &str) -> (r: Result<String, ConfigError>) {
        let sources = self.sources();
        let mut i: usize = 0;
        while i < sources.len()
            invariant
                i <= sources.len(),
                sources@ == self.source_list(),
                i > 0 ==> self.cli.reads_string(name@) is Err,
                i > 1 ==> self.env.reads_string(name@) is Err,
            decreases sources.len() - i,
        {
            let found = sources[i].get_string(name);
            if let Ok(v) = found {
                return Ok(v);
            }
            i += 1;
        }
        sources[0].get_string(name)
    }

    fn get_path(&self, name: &str) -> (r: Result<std::path::PathBuf, ConfigError>) {
        let sources = self.sources();
        let mut i: usize = 0;
        while i < sources.len()
            invariant
                i <= sources.len(),
                sources@ == self.source_list(),
                i > 0 ==> self.cli.reads_path(name@) is Err,
                i > 1 ==> self.env.reads_path(name@) is Err,
            decreases sources.len() - i,
        {
            let found = sources[i].get_path(name);
            if let Ok(v) = found {
                return Ok(v);
            }
            i += 1;
        }
        sources[0].get_path(name)
    }
}

} // verus!

//! The persisted store, read through typed lookups.

use vstd::prelude::*;
use crate::error::ConfigError;
use crate::source::ConfigSource;
use git2::Config as Store;

verus! {

/// `git2::Config`, the handle on a persisted store; nothing inside it is seen.
#[verifier::external_type_specification]
#[verifier::external_body]
pub struct ExStore(Store);

/// `git2::Error`, the store's failure; nothing inside it is seen.
#[verifier::external_type_specification]
#[verifier::external_body]
pub struct ExStoreError(git2::Error);

/// A name that the store cannot even be asked for: one that holds a NUL
/// character, which no name handed to the store's own code may hold.
pub open spec fn unnameable(name: Seq<char>) -> bool {
    name.contains('\0')
}

/// Calls `git2::Config::get_bool`. What comes back depends on the files
/// behind the store, so of a name that can be asked for nothing is claimed.
/// Trusted: a name that holds a NUL character fails, as the call turns the
/// name into a C string first and returns the failure of that.
#[verifier::external_body]
pub(crate) fn store_bool(store: &git2::Config, name: &str) -> (r: Result<bool, git2::Error>)
    ensures
        unnameable(name@) ==> r is Err,
{
    store.get_bool(name)
}

/// Calls `git2::Config::get_i32`. Trusted: a name that holds a NUL character
/// fails; of any other name nothing is claimed.
#[verifier::external_body]
pub(crate) fn store_i32(store: &git2::Config, name: &str) -> (r: Result<i32, git2::Error>)
    ensures
        unnameable(name@) ==> r is Err,
{
    store.get_i32(name)
}

/// Calls `git2::Config::get_i64`. Trusted: a name that holds a NUL character
/// fails; of any other name nothing is claimed.
#[verifier::external_body]
pub(crate) fn store_i64(store: &git2::Config, name: &str) -> (r: Result<i64, git2::Error>)
    ensures
        unnameable(name@) ==> r is Err,
{
    store.get_i64(name)
}

/// Calls `git2::Config::get_string`. Trusted: a name that holds a NUL character
/// fails; of any other name nothing is claimed.
#[verifier::external_body]
pub(crate) fn store_string(store: &git2::Config, name: &str) -> (r: Result<
    String,
    git2::Error,
>)
    ensures
        unnameable(name@) ==> r is Err,
{
    store.get_string(name)
}

/// Calls `git2::Config::get_path`. Trusted: a name that holds a NUL character
/// fails; of any other name nothing is claimed.
#[verifier::external_body]
pub(crate) fn store_path(store: &git2::Config, name: &str) -> (r: Result<
    std::path::PathBuf,
    git2::Error,
>)
    ensures
        unnameable(name@) ==> r is Err,
{
    store.get_path(name)
}

/// The message that a failure of the store carries.
pub uninterp spec fn store_error_message(e: git2::Error) -> Seq<char>;

/// Calls `git2::Error::message` and copies the text. Trusted: the text is
/// the failure's own message, which the failure holds and nothing else
/// decides.
#[verifier::external_body]
pub(crate) fn store_error_text(e: &git2::Error) -> (r: String)
    ensures
        r@ == store_error_message(*e),
{
    e.message().to_owned()
}

/// The failure of a lookup that stands for a failure of the store: it is of
/// the store's kind and carries the store's message.
pub open spec fn failure_of(e: git2::Error, r: ConfigError) -> bool {
    match r {
        ConfigError::Store(m) => m@ == store_error_message(e),
        _ => false,
    }
}

/// A failure of the store as a failure of a lookup.
pub fn store_failure(e: git2::Error) -> (r: ConfigError)
    ensures
        failure_of(e, r),
{
    ConfigError::Store(store_error_text(&e))
}

/// What a lookup gives for an answer of the store: the store's value as it
/// is, or the store's failure as a failure of the lookup.
pub open spec fn outcome_of<T>(found: Result<T, git2::Error>, r: Result<T, ConfigError>) -> bool {
    match found {
        Ok(v) => r == Ok::<T, ConfigError>(v),
        Err(e) => match r {
            Ok(_) => false,
            Err(f) => failure_of(e, f),
        },
    }
}

/// Turns an answer of the store into the result of a lookup.
pub fn store_outcome<T>(found: Result<T, git2::Error>) -> (r: Result<T, ConfigError>)
    ensures
        outcome_of(found, r),
{
    match found {
        Ok(v) => Ok(v),
        Err(e) => Err(store_failure(e)),
    }
}

/// What holds of any answer of the store: a failure is the store's own.
pub open spec fn from_store<T>(r: Result<T, ConfigError>) -> bool {
    match r {
        Ok(_) => true,
        Err(e) => e is Store,
    }
}

/// Which results the store may give for a name. What it holds is not seen
/// from here, so a name that can be asked for may give any value or any
/// failure of the store; a name that cannot be asked for always fails.
pub open spec fn store_yields<T>(name: Seq<char>, r: Result<T, ConfigError>) -> bool {
    from_store(r) && (unnameable(name) ==> r is Err)
}

impl ConfigSource for git2::Config {
    open spec fn yields_bool(&self, name: Seq<char>, r: Result<bool, ConfigError>) -> bool {
        store_yields(name, r)
    }

    open spec fn yields_i32(&self, name: Seq<char>, r: Result<i32, ConfigError>) -> bool {
        store_yields(name, r)
    }

    open spec fn yields_i64(&self, name: Seq<char>, r: Result<i64, ConfigError>) -> bool {
        store_yields(name, r)
    }

    open spec fn yields_string(&self, name: Seq<char>, r: Result<String, ConfigError>) -> bool {
        store_yields(name, r)
    }

    open spec fn yields_path(
        &self,
        name: Seq<char>,
        r: Result<std::path::PathBuf, ConfigError>,
    ) -> bool {
        store_yields(name, r)
    }

    open spec fn source_name(&self) -> Seq<char> {
        "git"@
    }

    fn name(&self) -> (r: &str) {
        "git"
    }

    fn get_bool(&self, name: &str) -> (r: Result<bool, ConfigError>) {
        store_outcome(store_bool(self, name))
    }

    fn get_i32(&self, name: &str) -> (r: Result<i32, ConfigError>) {
        store_outcome(store_i32(self, name))
    }

    fn get_i64(&self, name: &str) -> (r: Result<i64, ConfigError>) {
        store_outcome(store_i64(self, name))
    }

    fn get_string(&self, name: &str) -> (r: Result<String, ConfigError>) {
        store_outcome(store_string(self, name))
    }

    fn get_path(&self, name: &str) -> (r: Result<std::path::PathBuf, ConfigError>) {
        store_outcome(store_path(self, name))
    }
}

} // verus!

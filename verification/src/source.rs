//! What every provider of settings offers: typed lookups by name.

use vstd::prelude::*;
use crate::error::ConfigError;

verus! {

/// A provider of named, typed settings.
///
/// Each lookup comes with a predicate that says which results the provider
/// may give for a name. A provider held in memory admits exactly one result;
/// one that reads a store on disk admits any.
pub trait ConfigSource {
    spec fn yields_bool(&self, name: Seq<char>, r: Result<bool, ConfigError>) -> bool;

    spec fn yields_i32(&self, name: Seq<char>, r: Result<i32, ConfigError>) -> bool;

    spec fn yields_i64(&self, name: Seq<char>, r: Result<i64, ConfigError>) -> bool;

    spec fn yields_string(&self, name: Seq<char>, r: Result<String, ConfigError>) -> bool;

    spec fn yields_path(
        &self,
        name: Seq<char>,
        r: Result<std::path::PathBuf, ConfigError>,
    ) -> bool;

    /// The name the source goes by.
    spec fn source_name(&self) -> Seq<char>;

    fn name(&self) -> (r: &str)
        ensures
            r@ == self.source_name(),
    ;

    fn get_bool(&self, name: &str) -> (r: Result<bool, ConfigError>)
        ensures
            self.yields_bool(name@, r),
    ;

    fn get_i32(&self, name: &str) -> (r: Result<i32, ConfigError>)
        ensures
            self.yields_i32(name@, r),
    ;

    fn get_i64(&self, name: &str) -> (r: Result<i64, ConfigError>)
        ensures
            self.yields_i64(name@, r),
    ;

    fn get_string(&self, name: &str) -> (r: Result<String, ConfigError>)
        ensures
            self.yields_string(name@, r),
    ;

    fn get_path(&self, name: &str) -> (r: Result<std::path::PathBuf, ConfigError>)
        ensures
            self.yields_path(name@, r),
    ;
}

/// A result that carries text, seen through the text's view.
pub open spec fn text_result(r: Result<String, ConfigError>) -> Result<Seq<char>, ConfigError> {
    match r {
        Ok(s) => Ok(s@),
        Err(e) => Err(e),
    }
}

} // verus!

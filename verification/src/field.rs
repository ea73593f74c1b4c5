//! Named, typed handles on settings.

use vstd::prelude::*;
use crate::config::Config;
use crate::error::{ConfigError, FieldError};
use crate::source::ConfigSource;

verus! {

/// The lookup's own result under a field's failure.
pub open spec fn without_context<T>(r: Result<T, FieldError>) -> Result<T, ConfigError> {
    match r {
        Ok(v) => Ok(v),
        Err(e) => Err(e.cause),
    }
}

/// A failure names the field that was asked for.
pub open spec fn in_context<T>(name: Seq<char>, r: Result<T, FieldError>) -> bool {
    match r {
        Ok(_) => true,
        Err(e) => e.field@ == name,
    }
}

/// Reads a field of one type from a source, naming the field in any failure.
pub trait FieldReader<T> {
    /// Which results a read of the name may give.
    spec fn reads_field(&self, name: Seq<char>, r: Result<T, FieldError>) -> bool;

    fn get_field(&self, name: &str) -> (r: Result<T, FieldError>)
        ensures
            self.reads_field(name@, r),
    ;
}

impl<C: ConfigSource> FieldReader<bool> for C {
    open spec fn reads_field(&self, name: Seq<char>, r: Result<bool, FieldError>) -> bool {
        in_context(name, r) && self.yields_bool(name, without_context(r))
    }

    fn get_field(&self, name: &str) -> (r: Result<bool, FieldError>) {
        match self.get_bool(name) {
            Ok(v) => Ok(v),
            Err(e) => Err(FieldError { field: name.to_owned(), cause: e }),
        }
    }
}

impl<C: ConfigSource> FieldReader<i32> for C {
    open spec fn reads_field(&self, name: Seq<char>, r: Result<i32, FieldError>) -> bool {
        in_context(name, r) && self.yields_i32(name, without_context(r))
    }

    fn get_field(&self, name: &str) -> (r: Result<i32, FieldError>) {
        match self.get_i32(name) {
            Ok(v) => Ok(v),
            Err(e) => Err(FieldError { field: name.to_owned(), cause: e }),
        }
    }
}

impl<C: ConfigSource> FieldReader<i64> for C {
    open spec fn reads_field(&self, name: Seq<char>, r: Result<i64, FieldError>) -> bool {
        in_context(name, r) && self.yields_i64(name, without_context(r))
    }

    fn get_field(&self, name: &str) -> (r: Result<i64, FieldError>) {
        match self.get_i64(name) {
            Ok(v) => Ok(v),
            Err(e) => Err(FieldError { field: name.to_owned(), cause: e }),
        }
    }
}

impl<C: ConfigSource> FieldReader<String> for C {
    open spec fn reads_field(&self, name: Seq<char>, r: Result<String, FieldError>) -> bool {
        in_context(name, r) && self.yields_string(name, without_context(r))
    }

    fn get_field(&self, name: &str) -> (r: Result<String, FieldError>) {
        match self.get_string(name) {
            Ok(v) => Ok(v),
            Err(e) => Err(FieldError { field: name.to_owned(), cause: e }),
        }
    }
}

impl<C: ConfigSource> FieldReader<std::path::PathBuf> for C {
    open spec fn reads_field(
        &self,
        name: Seq<char>,
        r: Result<std::path::PathBuf, FieldError>,
    ) -> bool {
        in_context(name, r) && self.yields_path(name, without_context(r))
    }

    fn get_field(&self, name: &str) -> (r: Result<std::path::PathBuf, FieldError>) {
        match self.get_path(name) {
            Ok(v) => Ok(v),
            Err(e) => Err(FieldError { field: name.to_owned(), cause: e }),
        }
    }
}

/// A setting that can be resolved against the layered configuration.
pub trait Field {
    type Output;

    /// The field's full name, section and key.
    spec fn label(&self) -> Seq<char>;

    /// Which values a resolution against the configuration may give.
    spec fn resolves(&self, config: &Config, out: Self::Output) -> bool;

    fn name(&self) -> (r: &'static str)
        ensures
            r@ == self.label(),
    ;

    fn get_from(&self, config: &Config) -> (out: Self::Output)
        ensures
            self.resolves(config, out),
    ;
}

/// A named setting of one type, absent where no source supplies it.
pub struct RawField<R> {
    name: &'static str,
    _type: core::marker::PhantomData<R>,
}

impl<R> RawField<R> {
    pub closed spec fn full_name(&self) -> Seq<char> {
        self.name@
    }

    pub fn new(name: &'static str) -> (r: Self)
        ensures
            r.full_name() == name@,
    {
        RawField { name, _type: core::marker::PhantomData }
    }

    /// The same setting with a computed default for when it is absent.
    pub fn fallback<F: Fn(&Config) -> R>(self, fallback: F) -> (r: FallbackField<R, F>)
        requires
            forall|c: &Config| call_requires(fallback, (c,)),
        ensures
            r.raw() == self,
            r.default_fn() == fallback,
    {
        FallbackField { field: self, fallback }
    }
}

impl<R> Field for RawField<R> where Config: FieldReader<R> {
    type Output = Option<R>;

    open spec fn label(&self) -> Seq<char> {
        self.full_name()
    }

    open spec fn resolves(&self, config: &Config, out: Option<R>) -> bool {
        match out {
            Some(v) => config.reads_field(self.full_name(), Ok(v)),
            None => exists|e: FieldError| config.reads_field(self.full_name(), Err(e)),
        }
    }

    fn name(&self) -> (r: &'static str) {
        self.name
    }

    fn get_from(&self, config: &Config) -> (out: Option<R>) {
        match config.get_field(self.name) {
            Ok(v) => Some(v),
            Err(e) => {
                assert(config.reads_field(self.full_name(), Err(e)));
                None
            },
        }
    }
}

/// A named setting that always has a value: its own where a source supplies
/// one, else what its fallback computes from the configuration.
#[verifier::reject_recursive_types(R)]
#[verifier::reject_recursive_types(F)]
pub struct FallbackField<R, F: Fn(&Config) -> R> {
    field: RawField<R>,
    fallback: F,
}

impl<R, F: Fn(&Config) -> R> FallbackField<R, F> {
    #[verifier::type_invariant]
    spec fn callable(&self) -> bool {
        forall|c: &Config| call_requires(self.fallback, (c,))
    }

    pub closed spec fn raw(&self) -> RawField<R> {
        self.field
    }

    pub closed spec fn default_fn(&self) -> F {
        self.fallback
    }
}

impl<R, F: Fn(&Config) -> R> FallbackField<R, F> where Config: FieldReader<R> {
    /// Which values the field may resolve to: its own where a source
    /// supplies one, else what the fallback gives for the configuration.
    pub open spec fn settled(&self, config: &Config, out: R) -> bool {
        ||| config.reads_field(self.raw().full_name(), Ok(out))
        ||| ((exists|e: FieldError| config.reads_field(self.raw().full_name(), Err(e)))
            && call_ensures(self.default_fn(), (config,), out))
    }

    /// Resolves the field, asking the fallback only where the field itself
    /// is absent.
    pub fn value(&self, config: &Config) -> (out: R)
        ensures
            self.settled(config, out),
    {
        proof {
            use_type_invariant(self);
        }
        match self.field.get_from(config) {
            Some(v) => v,
            None => (self.fallback)(config),
        }
    }
}

impl<R, F: Fn(&Config) -> R> Field for FallbackField<R, F> where Config: FieldReader<R> {
    type Output = R;

    open spec fn label(&self) -> Seq<char> {
        self.raw().full_name()
    }

    open spec fn resolves(&self, config: &Config, out: R) -> bool {
        self.settled(config, out)
    }

    fn name(&self) -> (r: &'static str) {
        self.field.name()
    }

    fn get_from(&self, config: &Config) -> (out: R) {
        self.value(config)
    }
}

impl Config {
    /// Resolves a field against this configuration.
    pub fn get<F: Field>(&self, field: &F) -> (out: F::Output)
        ensures
            field.resolves(self, out),
    {
        field.get_from(self)
    }
}

} // verus!

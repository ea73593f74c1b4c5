//! Failures of a configuration lookup.

use vstd::prelude::*;

verus! {

/// Why a single source could not supply a value.
#[derive(Debug, PartialEq, Eq)]
pub enum ConfigError {
    /// The source holds nothing under the key.
    Missing,
    /// The key is there, but its text is not a value of the type asked for.
    Unparseable,
    /// The persisted store refused the lookup; the text is the store's own message.
    Store(String),
}

impl ConfigError {
    /// The text shown to a user for this failure.
    pub open spec fn text(&self) -> Seq<char> {
        match self {
            ConfigError::Missing => "field is missing"@,
            ConfigError::Unparseable => "value could not be parsed"@,
            ConfigError::Store(m) => m@,
        }
    }

    pub fn message(&self) -> (r: String)
        ensures
            r@ == self.text(),
    {
        match self {
            ConfigError::Missing => "field is missing".to_owned(),
            ConfigError::Unparseable => "value could not be parsed".to_owned(),
            ConfigError::Store(m) => m.clone(),
        }
    }
}

/// A failed read of a named field: the failure of the lookup together with
/// the name of the field that was asked for.
#[derive(Debug, PartialEq, Eq)]
pub struct FieldError {
    pub field: String,
    pub cause: ConfigError,
}

impl FieldError {
    /// The context line: the field's name between backquotes after a fixed phrase.
    pub open spec fn text(&self) -> Seq<char> {
        "failed to read `"@ + self.field@ + "`"@
    }

    pub fn message(&self) -> (r: String)
        ensures
            r@ == self.text(),
    {
        let mut out = "failed to read `".to_owned();
        out.append(self.field.as_str());
        out.append("`");
        out
    }
}

/// A field whose name has no section: a defect in the set of fields, not in
/// the user's data.
#[derive(Debug, PartialEq, Eq)]
pub enum DumpError {
    MisconfiguredField(String),
}

impl DumpError {
    /// The complaint: the field's name between backquotes, and what it lacks.
    pub open spec fn text(&self) -> Seq<char> {
        match self {
            DumpError::MisconfiguredField(name) => "field `"@ + name@ + "` is missing a section"@,
        }
    }

    pub fn message(&self) -> (r: String)
        ensures
            r@ == self.text(),
    {
        match self {
            DumpError::MisconfiguredField(name) => {
                let mut out = "field `".to_owned();
                out.append(name.as_str());
                out.append("` is missing a section");
                out
            },
        }
    }
}

} // verus!

//! The dump of resolved settings, grouped by section.

use vstd::prelude::*;
use vstd::string::to_string_from_display_ensures;
use crate::config::Config;
use crate::error::DumpError;
use crate::field::Field;

verus! {

/// The place of the first `.` in a name; the name's length where it has none.
pub open spec fn first_dot(s: Seq<char>) -> int
    decreases s.len(),
{
    if s.len() == 0 {
        0
    } else if s[0] == '.' {
        0
    } else {
        1 + first_dot(s.skip(1))
    }
}

pub open spec fn has_section(name: Seq<char>) -> bool {
    first_dot(name) < name.len()
}

/// What stands before the first `.`.
pub open spec fn section_of(name: Seq<char>) -> Seq<char> {
    name.take(first_dot(name))
}

/// What stands after the first `.`.
pub open spec fn key_of(name: Seq<char>) -> Seq<char> {
    name.skip(first_dot(name) + 1)
}

proof fn first_dot_found(s: Seq<char>, i: int)
    requires
        0 <= i <= s.len(),
        forall|k: int| 0 <= k < i ==> s[k] != '.',
        i < s.len() ==> s[i] == '.',
    ensures
        first_dot(s) == i,
    decreases i,
{
    if i > 0 {
        let rest = s.skip(1);
        assert(s[0] != '.');
        assert forall|k: int| 0 <= k < i - 1 implies rest[k] != '.' by {
            assert(rest[k] == s[k + 1]);
        }
        if i < s.len() {
            assert(rest[i - 1] == s[i]);
        }
        first_dot_found(rest, i - 1);
    }
}

/// Splits a field's name at its first `.` into section and key.
pub fn split_name(name: &str) -> (r: Option<(String, String)>)
    ensures
        match r {
            Some((section, key)) => has_section(name@) && section@ == section_of(name@) && key@
                == key_of(name@),
            None => !has_section(name@),
        },
{
    let n = name.unicode_len();
    let mut i: usize = 0;
    while i < n
        invariant
            i <= n,
            n == name@.len(),
            forall|k: int| 0 <= k < i ==> name@[k] != '.',
        decreases n - i,
    {
        if name.get_char(i) == '.' {
            proof {
                first_dot_found(name@, i as int);
            }
            let section = name.substring_char(0, i).to_owned();
            let key = name.substring_char(i + 1, n).to_owned();
            assert(section@ =~= section_of(name@));
            assert(key@ =~= key_of(name@));
            return Some((section, key));
        }
        i += 1;
    }
    proof {
        first_dot_found(name@, n as int);
    }
    None
}

/// The section of the row dumped last; empty before the first row.
pub open spec fn prior_section(rows: Seq<(String, String)>) -> Seq<char> {
    if rows.len() == 0 {
        Seq::empty()
    } else {
        section_of(rows.last().0@)
    }
}

/// The lines for one row: a header where the section changes, then the
/// indented key and value.
pub open spec fn row_text(prior: Seq<char>, name: Seq<char>, value: Seq<char>) -> Seq<char> {
    let header = if section_of(name) != prior {
        "["@ + section_of(name) + "]\n"@
    } else {
        Seq::empty()
    };
    header + "\t"@ + key_of(name) + " = "@ + value + "\n"@
}

/// The whole dump of rows of name and value, in the order given.
pub open spec fn dump_text(rows: Seq<(String, String)>) -> Seq<char>
    decreases rows.len(),
{
    if rows.len() == 0 {
        Seq::empty()
    } else {
        dump_text(rows.drop_last()) + row_text(
            prior_section(rows.drop_last()),
            rows.last().0@,
            rows.last().1@,
        )
    }
}

/// What a dump of the rows gives: the text where every name has a section,
/// else the first name that has none.
pub open spec fn dumped(rows: Seq<(String, String)>, r: Result<String, DumpError>) -> bool {
    match r {
        Ok(text) => {
            &&& forall|i: int| 0 <= i < rows.len() ==> has_section(#[trigger] rows[i].0@)
            &&& text@ == dump_text(rows)
        },
        Err(DumpError::MisconfiguredField(name)) => exists|i: int|
            {
                &&& 0 <= i < rows.len()
                &&& !has_section(#[trigger] rows[i].0@)
                &&& name@ == rows[i].0@
                &&& forall|k: int| 0 <= k < i ==> has_section(#[trigger] rows[k].0@)
            },
    }
}

/// Renders rows of field name and value as sections of `key = value` lines.
/// The rows are taken as they come: nothing is sorted or merged.
pub fn render_dump(rows: &Vec<(String, String)>) -> (r: Result<String, DumpError>)
    ensures
        dumped(rows@, r),
{
    let mut output = String::new();
    let mut prior = String::new();
    let mut i: usize = 0;
    while i < rows.len()
        invariant
            i <= rows.len(),
            forall|k: int| 0 <= k < i ==> has_section(#[trigger] rows[k].0@),
            output@ == dump_text(rows@.take(i as int)),
            prior@ == prior_section(rows@.take(i as int)),
        decreases rows.len() - i,
    {
        let ghost before = output@;
        let ghost upto = rows@.take(i as int + 1);
        proof {
            assert(upto.drop_last() =~= rows@.take(i as int));
            assert(upto.last() == rows@[i as int]);
        }
        match split_name(rows[i].0.as_str()) {
            None => {
                return Err(DumpError::MisconfiguredField(rows[i].0.clone()));
            },
            Some((section, key)) => {
                if !(section == prior) {
                    output.append("[");
                    output.append(section.as_str());
                    output.append("]\n");
                    prior = section;
                }
                output.append("\t");
                output.append(key.as_str());
                output.append(" = ");
                output.append(rows[i].1.as_str());
                output.append("\n");
                assert(output@ =~= before + row_text(
                    prior_section(rows@.take(i as int)),
                    rows[i as int].0@,
                    rows[i as int].1@,
                ));
            },
        }
        i += 1;
    }
    assert(rows@.take(rows.len() as int) =~= rows@);
    Ok(output)
}

/// A field that can show its resolved value as text.
pub trait ReflectField {
    /// The field's full name.
    spec fn shown_name(&self) -> Seq<char>;

    /// Which texts a rendering against the configuration may give.
    spec fn renders(&self, config: &Config, text: String) -> bool;

    fn name(&self) -> (r: &'static str)
        ensures
            r@ == self.shown_name(),
    ;

    fn dump(&self, config: &Config) -> (r: String)
        ensures
            self.renders(config, r),
    ;
}

impl<F> ReflectField for F where F: Field, F::Output: std::fmt::Display {
    open spec fn shown_name(&self) -> Seq<char> {
        self.label()
    }

    open spec fn renders(&self, config: &Config, text: String) -> bool {
        exists|out: F::Output|
            self.resolves(config, out) && to_string_from_display_ensures::<F::Output>(
                &out,
                text,
            )
    }

    fn name(&self) -> (r: &'static str) {
        Field::name(self)
    }

    fn dump(&self, config: &Config) -> (r: String) {
        let out = self.get_from(config);
        let r = out.to_string();
        assert(self.resolves(config, out) && to_string_from_display_ensures::<F::Output>(&out, r));
        r
    }
}

/// The rows stand for the fields, one for one: each has its field's name and
/// a rendering of its field.
pub open spec fn rows_of<F: ReflectField>(
    config: &Config,
    fields: Seq<F>,
    rows: Seq<(String, String)>,
) -> bool {
    &&& rows.len() == fields.len()
    &&& forall|i: int|
        0 <= i < fields.len() ==> (#[trigger] rows[i]).0@ == fields[i].shown_name()
            && fields[i].renders(config, rows[i].1)
}

impl Config {
    /// Dumps the fields with their resolved values, grouped by section in the
    /// order given. A field whose name has no section stops the dump.
    pub fn dump<F: ReflectField>(&self, fields: &Vec<F>) -> (r: Result<String, DumpError>)
        ensures
            exists|rows: Seq<(String, String)>| rows_of(self, fields@, rows) && dumped(rows, r),
    {
        let mut rows: Vec<(String, String)> = Vec::new();
        let mut i: usize = 0;
        while i < fields.len()
            invariant
                i <= fields.len(),
                rows_of(self, fields@.take(i as int), rows@),
            decreases fields.len() - i,
        {
            let name = fields[i].name().to_owned();
            let value = fields[i].dump(self);
            rows.push((name, value));
            i += 1;
        }
        assert(fields@.take(fields.len() as int) =~= fields@);
        let r = render_dump(&rows);
        assert(rows_of(self, fields@, rows@) && dumped(rows@, r));
        r
    }
}

} // verus!

//! What holds of the resolver and of the fields, whatever the stores answer.

use vstd::prelude::*;
use crate::config::{first_ok, first_success, settles, Config};
use crate::dump::{dump_text, prior_section, row_text};
use crate::error::ConfigError;
use crate::field::{FallbackField, Field, RawField};
use crate::memory::{InMemoryConfig, values_of};
use crate::source::{ConfigSource, text_result};

verus! {

/// Where the command line supplies a value, the resolver gives that value,
/// whatever the environment and the stores hold.
pub proof fn command_line_wins<T>(
    cli: Result<T, ConfigError>,
    env: Result<T, ConfigError>,
    stores: bool,
    r: Result<T, ConfigError>,
)
    requires
        settles(cli, env, stores, r),
        cli is Ok,
    ensures
        r == cli,
{
}

/// A text that both the command line and the environment supply, each its
/// own, resolves to the command line's.
pub proof fn command_line_text_wins(
    config: Config,
    name: Seq<char>,
    r: Result<String, ConfigError>,
    from_cli: Seq<char>,
    from_env: Seq<char>,
)
    requires
        config.yields_string(name, r),
        config.cli_source().reads_string(name) == Ok::<Seq<char>, ConfigError>(from_cli),
        config.env_source().reads_string(name) == Ok::<Seq<char>, ConfigError>(from_env),
        from_cli != from_env,
    ensures
        text_result(r) == Ok::<Seq<char>, ConfigError>(from_cli),
{
}

/// Where the command line has nothing and the environment supplies a value,
/// the resolver gives the environment's.
pub proof fn environment_is_second<T>(
    cli: Result<T, ConfigError>,
    env: Result<T, ConfigError>,
    stores: bool,
    r: Result<T, ConfigError>,
)
    requires
        settles(cli, env, stores, r),
        cli is Err,
        env is Ok,
    ensures
        r == env,
{
}

/// A failure of the resolver is the failure of its first source, the command
/// line: every source has failed, and what the others said is dropped.
pub proof fn first_failure_surfaces<T>(
    cli: Result<T, ConfigError>,
    env: Result<T, ConfigError>,
    stores: bool,
    r: Result<T, ConfigError>,
)
    requires
        settles(cli, env, stores, r),
        r is Err,
    ensures
        r == cli,
        env is Err,
{
}

/// The resolver gives what asking its sources in turn comes to: for any
/// answers of the stores, the first success among command line, environment
/// and stores, or else the command line's failure, is a result it admits.
pub proof fn resolver_asks_in_order<T>(
    cli: Result<T, ConfigError>,
    env: Result<T, ConfigError>,
    stores: Seq<Result<T, ConfigError>>,
)
    ensures
        settles(cli, env, stores.len() > 0, first_success(seq![cli, env] + stores)),
{
    let all = seq![cli, env] + stores;
    let below = all.skip(1);
    assert(all[0] == cli);
    assert(below[0] == env);
    assert(below.skip(1) =~= stores);
    assert(first_ok(all) == match cli {
        Ok(v) => Some(v),
        Err(_) => first_ok(below),
    });
    assert(first_ok(below) == match env {
        Ok(v) => Some(v),
        Err(_) => first_ok(stores),
    });
}

/// With no store, the resolver fails exactly where both sources in memory do.
pub proof fn memory_alone_decides<T>(
    cli: Result<T, ConfigError>,
    env: Result<T, ConfigError>,
    r: Result<T, ConfigError>,
)
    requires
        settles(cli, env, false, r),
    ensures
        r is Err <==> (cli is Err && env is Err),
        r is Ok ==> r == (if cli is Ok { cli } else { env }),
{
}

/// A store in memory reads the value that was given last for a key.
pub proof fn last_value_wins(
    store: InMemoryConfig,
    pairs: Seq<(Seq<char>, Seq<char>)>,
    key: Seq<char>,
    value: Seq<char>,
)
    requires
        forall|k: Seq<char>| store.values(k) == values_of(pairs, k),
        pairs.len() > 0,
        pairs.last() == (key, value),
    ensures
        store.reads_str(key) == Ok::<Seq<char>, ConfigError>(value),
{
}

/// Values of one key keep their order when runs of pairs are joined: those
/// of the first run come first.
pub proof fn values_keep_their_order(
    first: Seq<(Seq<char>, Seq<char>)>,
    second: Seq<(Seq<char>, Seq<char>)>,
    key: Seq<char>,
)
    ensures
        values_of(first + second, key) == values_of(first, key) + values_of(second, key),
    decreases second.len(),
{
    if second.len() == 0 {
        assert(first + second =~= first);
        assert(values_of(first, key) + values_of(second, key) =~= values_of(first, key));
    } else {
        let all = first + second;
        assert(all.drop_last() =~= first + second.drop_last());
        assert(all.last() == second.last());
        values_keep_their_order(first, second.drop_last(), key);
        if second.last().0 == key {
            assert(values_of(all, key) =~= values_of(first, key) + values_of(second, key));
        }
    }
}

/// The dump grows row by row: a further row adds its own lines after what
/// was dumped before, with a header exactly where its section differs from
/// that of the row before it. Nothing already dumped is moved or merged.
pub proof fn dump_grows_by_rows(rows: Seq<(String, String)>, row: (String, String))
    ensures
        dump_text(rows.push(row)) == dump_text(rows) + row_text(
            prior_section(rows),
            row.0@,
            row.1@,
        ),
{
    assert(rows.push(row).drop_last() =~= rows);
}

/// An integer field is absent only where the command line and the
/// environment both fail to supply it, and is always absent there when no
/// store is attached. Where one of the two supplies a number, the field has
/// the number of the first that does.
pub proof fn raw_integer_follows_precedence(field: RawField<i32>, config: Config, out: Option<i32>)
    requires
        field.resolves(&config, out),
    ensures
        config.cli_source().reads_i32(field.full_name()) matches Ok(n) ==> out == Some(n),
        config.cli_source().reads_i32(field.full_name()) is Err ==> (
        config.env_source().reads_i32(field.full_name()) matches Ok(n) ==> out == Some(n)),
        out is None ==> config.cli_source().reads_i32(field.full_name()) is Err
            && config.env_source().reads_i32(field.full_name()) is Err,
        !config.has_store() && config.cli_source().reads_i32(field.full_name()) is Err
            && config.env_source().reads_i32(field.full_name()) is Err ==> out is None,
{
}

/// A field with a fallback has its own value where the command line or the
/// environment supplies one; the fallback's result stands only where the
/// field itself is absent.
pub proof fn fallback_only_when_absent<F: Fn(&Config) -> i32>(
    field: FallbackField<i32, F>,
    config: Config,
    out: i32,
)
    requires
        field.settled(&config, out),
    ensures
        field.resolves(&config, out),
        config.cli_source().reads_i32(field.label()) matches Ok(n) ==> out == n,
        config.cli_source().reads_i32(field.label()) is Err ==> (
        config.env_source().reads_i32(field.label()) matches Ok(n) ==> out == n),
        !config.has_store() && config.cli_source().reads_i32(field.label()) is Err
            && config.env_source().reads_i32(field.label()) is Err ==> call_ensures(
            field.default_fn(),
            (&config,),
            out,
        ),
{
}

} // verus!

use git_dive::config::{first_of, Config};
use git_dive::dump::{render_dump, split_name, ReflectField};
use git_dive::error::{ConfigError, DumpError, FieldError};
use git_dive::field::{FallbackField, Field, FieldReader, RawField};
use git_dive::memory::InMemoryConfig;
use git_dive::source::ConfigSource;
use std::cell::Cell;
use std::path::PathBuf;

fn store(name: &str, items: &[(&str, &str)]) -> InMemoryConfig {
    InMemoryConfig::from_env(
        name,
        items.iter().map(|(k, v)| (k.to_string(), v.to_string())).collect(),
    )
}

fn layered(cli: &[(&str, &str)], env: &[(&str, &str)]) -> Config {
    Config::from_sources(None, store("env", env), store("cli", cli))
}

fn rows(items: &[(&str, &str)]) -> Vec<(String, String)> {
    items.iter().map(|(k, v)| (k.to_string(), v.to_string())).collect()
}

#[test]
fn command_line_overrides_environment() {
    let config = layered(&[("a.b", "cli"), ("a.n", "1")], &[("a.b", "env"), ("a.n", "2")]);
    assert_eq!(config.get_string("a.b"), Ok("cli".to_string()));
    assert_eq!(config.get_i32("a.n"), Ok(1));
    assert_eq!(config.get_i64("a.n"), Ok(1));
    assert_eq!(config.get_path("a.b"), Ok(PathBuf::from("cli")));
}

#[test]
fn environment_supplies_what_command_line_lacks() {
    let config = layered(&[("a.b", "cli")], &[("a.c", "env"), ("a.t", "false")]);
    assert_eq!(config.get_string("a.c"), Ok("env".to_string()));
    assert_eq!(config.get_bool("a.t"), Ok(false));
}

#[test]
fn unparseable_command_line_value_yields_to_environment() {
    let config = layered(&[("a.n", "many")], &[("a.n", "3")]);
    assert_eq!(config.get_i32("a.n"), Ok(3));
}

#[test]
fn total_failure_surfaces_first_source() {
    let config = layered(&[], &[("a.n", "many")]);
    assert_eq!(config.get_i32("a.n"), Err(ConfigError::Missing));
    let config = layered(&[("a.n", "many")], &[]);
    assert_eq!(config.get_i32("a.n"), Err(ConfigError::Unparseable));
}

#[test]
fn total_failure_with_stores_surfaces_first_source() {
    let mut config = Config::from_sources(
        git2::Config::new().ok(),
        store("env", &[("a.n", "many")]),
        store("cli", &[]),
    );
    config.add_repo(git2::Config::new().ok());
    assert_eq!(config.sources().len(), 4);
    assert_eq!(config.get_i32("a.n"), Err(ConfigError::Missing));
    assert_eq!(config.get_bool("a.n"), Err(ConfigError::Missing));
    assert_eq!(config.get_i64("a.n"), Err(ConfigError::Missing));
    assert_eq!(config.get_string("a.x"), Err(ConfigError::Missing));
    assert_eq!(config.get_path("a.x"), Err(ConfigError::Missing));
}

#[test]
fn system_configuration_layers_parameters_over_environment() {
    let vars = vec![
        ("GIT_CONFIG_COUNT".to_string(), "2".to_string()),
        ("GIT_CONFIG_KEY_0".to_string(), "a.b".to_string()),
        ("GIT_CONFIG_VALUE_0".to_string(), "env".to_string()),
        ("GIT_CONFIG_KEY_1".to_string(), "a.c".to_string()),
        ("GIT_CONFIG_VALUE_1".to_string(), "only env".to_string()),
    ];
    let config = Config::system(None, vars, "'a.b=cli' 'a.flag'");
    assert_eq!(config.get_string("a.b"), Ok("cli".to_string()));
    assert_eq!(config.get_string("a.c"), Ok("only env".to_string()));
    assert_eq!(config.get_bool("a.flag"), Ok(true));
    assert_eq!(config.get_bool("a.none"), Err(ConfigError::Missing));
    let names: Vec<String> = config.sources().iter().map(|s| s.name().to_string()).collect();
    assert_eq!(names, vec!["git-cli".to_string(), "git-config-env".to_string()]);
}

#[test]
fn empty_store_fails_with_its_own_failure() {
    let persisted = git2::Config::new().unwrap();
    let got = ConfigSource::get_bool(&persisted, "a.b");
    assert!(matches!(got, Err(ConfigError::Store(_))));
    assert_eq!(ConfigSource::name(&persisted), "git");
}

#[test]
fn sources_are_in_order_of_precedence() {
    let mut config = layered(&[], &[]);
    let names: Vec<String> = config.sources().iter().map(|s| s.name().to_string()).collect();
    assert_eq!(names, vec!["cli".to_string(), "env".to_string()]);
    config.add_repo(git2::Config::new().ok());
    let names: Vec<String> = config.sources().iter().map(|s| s.name().to_string()).collect();
    assert_eq!(names, vec!["cli".to_string(), "env".to_string(), "git".to_string()]);
    assert_eq!(ConfigSource::name(&config), "git");
}

#[test]
fn field_read_names_the_field_in_its_failure() {
    let config = layered(&[], &[]);
    let got: Result<i32, FieldError> = config.get_field("a.n");
    assert_eq!(
        got,
        Err(FieldError { field: "a.n".to_string(), cause: ConfigError::Missing })
    );
    assert_eq!(got.unwrap_err().message(), "failed to read `a.n`");
    let config = layered(&[("a.n", "5")], &[]);
    let got: Result<i32, FieldError> = config.get_field("a.n");
    assert_eq!(got, Ok(5));
    let got: Result<String, FieldError> = config.get_field("a.n");
    assert_eq!(got, Ok("5".to_string()));
}

#[test]
fn raw_field_is_absent_or_follows_precedence() {
    let field: RawField<i32> = RawField::new("a.n");
    assert_eq!(Field::name(&field), "a.n");
    assert_eq!(layered(&[], &[]).get(&field), None);
    assert_eq!(layered(&[("a.m", "1")], &[("a.x", "2")]).get(&field), None);
    assert_eq!(layered(&[], &[("a.n", "2")]).get(&field), Some(2));
    assert_eq!(layered(&[("a.n", "1")], &[("a.n", "2")]).get(&field), Some(1));
    assert_eq!(layered(&[("a.n", "x")], &[("a.n", "2")]).get(&field), Some(2));
    assert_eq!(layered(&[("a.n", "x")], &[]).get(&field), None);
}

#[test]
fn fallback_runs_only_when_field_is_absent() {
    let calls = Cell::new(0);
    let field = RawField::<i32>::new("a.n").fallback(|_config: &Config| {
        calls.set(calls.get() + 1);
        99
    });
    assert_eq!(layered(&[("a.n", "4")], &[]).get(&field), 4);
    assert_eq!(calls.get(), 0);
    assert_eq!(layered(&[], &[]).get(&field), 99);
    assert_eq!(calls.get(), 1);
    assert_eq!(Field::name(&field), "a.n");
}

#[test]
fn fallback_field_value_matches_resolution() {
    let field = RawField::<i64>::new("a.n").fallback(|_config: &Config| -1);
    assert_eq!(field.value(&layered(&[], &[("a.n", "12")])), 12);
    assert_eq!(field.value(&layered(&[], &[("a.n", "twelve")])), -1);
    let flag = RawField::<bool>::new("a.flag").fallback(|_config: &Config| false);
    assert_eq!(flag.value(&layered(&[("a.flag", "")], &[])), true);
    assert_eq!(flag.value(&layered(&[], &[])), false);
}

#[test]
fn first_success_in_order_decides() {
    let outcomes: Vec<Result<i32, ConfigError>> =
        vec![Err(ConfigError::Missing), Ok(2), Err(ConfigError::Unparseable), Ok(4)];
    assert_eq!(first_of(outcomes), Ok(2));
    assert_eq!(first_of(vec![Ok::<i32, ConfigError>(1), Ok(2)]), Ok(1));
    assert_eq!(first_of(vec![Ok::<i32, ConfigError>(7)]), Ok(7));
}

#[test]
fn first_failure_is_surfaced_whatever_the_others_say() {
    let outcomes: Vec<Result<i32, ConfigError>> = vec![
        Err(ConfigError::Missing),
        Err(ConfigError::Unparseable),
        Err(ConfigError::Store("config value 'a.n' was not found".to_string())),
    ];
    assert_eq!(first_of(outcomes), Err(ConfigError::Missing));
    let outcomes: Vec<Result<String, ConfigError>> = vec![
        Err(ConfigError::Store("locked".to_string())),
        Err(ConfigError::Missing),
    ];
    assert_eq!(first_of(outcomes), Err(ConfigError::Store("locked".to_string())));
}

#[test]
fn fallback_may_read_another_setting() {
    let field = RawField::<String>::new("ui.theme").fallback(|config: &Config| {
        config.get_string("ui.default").unwrap_or_else(|_| "plain".to_string())
    });
    assert_eq!(layered(&[], &[("ui.default", "dark")]).get(&field), "dark");
    assert_eq!(layered(&[], &[]).get(&field), "plain");
    assert_eq!(layered(&[("ui.theme", "light")], &[("ui.default", "dark")]).get(&field), "light");
}

#[test]
fn dump_groups_rows_as_they_come() {
    let text = render_dump(&rows(&[("x.a", "1"), ("x.b", "2"), ("y.c", "3")]));
    assert_eq!(text, Ok("[x]\n\ta = 1\n\tb = 2\n[y]\n\tc = 3\n".to_string()));
}

#[test]
fn dump_does_not_sort_or_merge() {
    let text = render_dump(&rows(&[("x.a", "1"), ("y.c", "3"), ("x.b", "2")]));
    assert_eq!(text, Ok("[x]\n\ta = 1\n[y]\n\tc = 3\n[x]\n\tb = 2\n".to_string()));
}

#[test]
fn dump_of_nothing_is_empty() {
    assert_eq!(render_dump(&Vec::new()), Ok(String::new()));
}

#[test]
fn dump_refuses_name_without_section() {
    let got = render_dump(&rows(&[("x.a", "1"), ("nodot", "2"), ("alsonone", "3")]));
    assert_eq!(got, Err(DumpError::MisconfiguredField("nodot".to_string())));
    assert_eq!(got.unwrap_err().message(), "field `nodot` is missing a section");
}

#[test]
fn name_splits_at_first_dot() {
    assert_eq!(split_name("a.b.c"), Some(("a".to_string(), "b.c".to_string())));
    assert_eq!(split_name(".k"), Some((String::new(), "k".to_string())));
    assert_eq!(split_name("s."), Some(("s".to_string(), String::new())));
    assert_eq!(split_name("nodot"), None);
    assert_eq!(split_name(""), None);
    assert_eq!(split_name("é.ü"), Some(("é".to_string(), "ü".to_string())));
}

fn seven(_config: &Config) -> i32 {
    7
}

fn eight(_config: &Config) -> i32 {
    8
}

fn with_default(
    name: &'static str,
    default: fn(&Config) -> i32,
) -> FallbackField<i32, fn(&Config) -> i32> {
    RawField::<i32>::new(name).fallback(default)
}

#[test]
fn config_dumps_resolved_fields() {
    let config = layered(&[("x.a", "1")], &[("y.c", "3")]);
    let fields = vec![
        with_default("x.a", seven),
        with_default("x.b", eight),
        with_default("y.c", seven),
    ];
    assert_eq!(
        config.dump(&fields),
        Ok("[x]\n\ta = 1\n\tb = 8\n[y]\n\tc = 3\n".to_string())
    );
    assert_eq!(ReflectField::name(&fields[1]), "x.b");
    assert_eq!(ReflectField::dump(&fields[1], &config), "8");
}

#[test]
fn config_dump_refuses_field_without_section() {
    let config = layered(&[], &[]);
    let fields = vec![with_default("nodot", seven)];
    assert_eq!(
        config.dump(&fields),
        Err(DumpError::MisconfiguredField("nodot".to_string()))
    );
}

fn persisted(file: &str, items: &[(&str, &str)]) -> git2::Config {
    let mut store = git2::Config::open(std::path::Path::new(file)).unwrap();
    for (key, value) in items {
        store.set_str(key, value).unwrap();
    }
    store
}

#[test]
fn store_supplies_what_memory_lacks() {
    let repo = persisted(
        "/tmp/git_dive_store_supplies.config",
        &[("a.b", "stored"), ("a.n", "1k"), ("a.t", "yes")],
    );
    let mut config = layered(&[("a.c", "cli")], &[("a.n", "many")]);
    config.add_repo(Some(repo));
    assert_eq!(config.get_string("a.b"), Ok("stored".to_string()));
    assert_eq!(config.get_i32("a.n"), Ok(1024));
    assert_eq!(config.get_i64("a.n"), Ok(1024));
    assert_eq!(config.get_bool("a.t"), Ok(true));
    assert_eq!(config.get_path("a.b"), Ok(PathBuf::from("stored")));
    assert_eq!(config.get_string("a.c"), Ok("cli".to_string()));
    assert_eq!(config.get_string("a.none"), Err(ConfigError::Missing));
    let field: RawField<i32> = RawField::new("a.n");
    assert_eq!(config.get(&field), Some(1024));
}

#[test]
fn memory_overrides_store() {
    let system = persisted(
        "/tmp/git_dive_memory_overrides.config",
        &[("a.b", "system"), ("a.c", "system")],
    );
    let config = Config::from_sources(
        Some(system),
        store("env", &[("a.b", "env"), ("a.c", "env")]),
        store("cli", &[("a.b", "cli")]),
    );
    assert_eq!(config.get_string("a.b"), Ok("cli".to_string()));
    assert_eq!(config.get_string("a.c"), Ok("env".to_string()));
}

#[test]
fn repository_store_comes_before_system_store() {
    let system = persisted("/tmp/git_dive_order_system.config", &[("a.b", "system"), ("a.s", "1")]);
    let repo = persisted("/tmp/git_dive_order_repo.config", &[("a.b", "repo")]);
    let mut config = Config::from_sources(Some(system), store("env", &[]), store("cli", &[]));
    config.add_repo(Some(repo));
    assert_eq!(config.get_string("a.b"), Ok("repo".to_string()));
    assert_eq!(config.get_i32("a.s"), Ok(1));
    config.add_repo(None);
    assert_eq!(config.get_string("a.b"), Ok("system".to_string()));
}

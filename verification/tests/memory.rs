use git_dive::error::ConfigError;
use git_dive::memory::{cli_pairs, InMemoryConfig};
use git_dive::source::ConfigSource;
use std::path::PathBuf;

fn pairs(items: &[(&str, &str)]) -> Vec<(String, String)> {
    items.iter().map(|(k, v)| (k.to_string(), v.to_string())).collect()
}

#[test]
fn last_value_wins() {
    let store = InMemoryConfig::from_env("t", pairs(&[("a.b", "1"), ("a.b", "2")]));
    assert_eq!(store.get_string("a.b"), Ok("2".to_string()));
    assert_eq!(store.get_str("a.b"), Ok("2"));
    assert_eq!(store.get_i32("a.b"), Ok(2));
}

#[test]
fn values_of_other_keys_do_not_interfere() {
    let store = InMemoryConfig::from_env(
        "t",
        pairs(&[("a.b", "1"), ("c.d", "x"), ("a.b", "2"), ("c.d", "y"), ("e.f", "z")]),
    );
    assert_eq!(store.get_string("a.b"), Ok("2".to_string()));
    assert_eq!(store.get_string("c.d"), Ok("y".to_string()));
    assert_eq!(store.get_string("e.f"), Ok("z".to_string()));
}

#[test]
fn missing_key_fails_for_every_type() {
    let store = InMemoryConfig::from_env("t", pairs(&[("a.b", "1")]));
    assert_eq!(store.get_str("x.y"), Err(ConfigError::Missing));
    assert_eq!(store.get_string("x.y"), Err(ConfigError::Missing));
    assert_eq!(store.get_bool("x.y"), Err(ConfigError::Missing));
    assert_eq!(store.get_i32("x.y"), Err(ConfigError::Missing));
    assert_eq!(store.get_i64("x.y"), Err(ConfigError::Missing));
    assert_eq!(store.get_path("x.y"), Err(ConfigError::Missing));
}

#[test]
fn flag_without_value_is_true_and_has_no_text() {
    let store = InMemoryConfig::from_env("t", pairs(&[("a.flag", "")]));
    assert_eq!(store.get_bool("a.flag"), Ok(true));
    assert_eq!(store.get_string("a.flag"), Err(ConfigError::Unparseable));
    assert_eq!(store.get_path("a.flag"), Err(ConfigError::Unparseable));
    assert_eq!(store.get_i32("a.flag"), Err(ConfigError::Unparseable));
    assert_eq!(store.get_i64("a.flag"), Err(ConfigError::Unparseable));
    assert_eq!(store.get_str("a.flag"), Ok(""));
}

#[test]
fn booleans_are_the_two_literals() {
    let store = InMemoryConfig::from_env(
        "t",
        pairs(&[("a.t", "true"), ("a.f", "false"), ("a.y", "yes"), ("a.u", "True")]),
    );
    assert_eq!(store.get_bool("a.t"), Ok(true));
    assert_eq!(store.get_bool("a.f"), Ok(false));
    assert_eq!(store.get_bool("a.y"), Err(ConfigError::Unparseable));
    assert_eq!(store.get_bool("a.u"), Err(ConfigError::Unparseable));
}

#[test]
fn integers_are_signed_decimals_in_range() {
    let store = InMemoryConfig::from_env(
        "t",
        pairs(&[
            ("n.a", "42"),
            ("n.b", "-7"),
            ("n.c", "+5"),
            ("n.d", "abc"),
            ("n.e", "2147483648"),
            ("n.f", "-2147483648"),
            ("n.g", " 1"),
            ("n.h", "-"),
            ("n.i", "1_000"),
            ("n.j", "007"),
        ]),
    );
    assert_eq!(store.get_i32("n.a"), Ok(42));
    assert_eq!(store.get_i32("n.b"), Ok(-7));
    assert_eq!(store.get_i32("n.c"), Ok(5));
    assert_eq!(store.get_i32("n.d"), Err(ConfigError::Unparseable));
    assert_eq!(store.get_i32("n.e"), Err(ConfigError::Unparseable));
    assert_eq!(store.get_i64("n.e"), Ok(2147483648));
    assert_eq!(store.get_i32("n.f"), Ok(i32::MIN));
    assert_eq!(store.get_i32("n.g"), Err(ConfigError::Unparseable));
    assert_eq!(store.get_i64("n.h"), Err(ConfigError::Unparseable));
    assert_eq!(store.get_i64("n.i"), Err(ConfigError::Unparseable));
    assert_eq!(store.get_i64("n.j"), Ok(7));
}

#[test]
fn path_is_the_text_as_a_path() {
    let store = InMemoryConfig::from_env("t", pairs(&[("p.q", "/tmp/some where")]));
    assert_eq!(store.get_path("p.q"), Ok(PathBuf::from("/tmp/some where")));
    assert_ne!(store.get_path("p.q"), Ok(PathBuf::from("")));
}

#[test]
fn store_keeps_its_name() {
    let store = InMemoryConfig::from_env("mine", Vec::new());
    assert_eq!(store.name(), "mine");
    assert_eq!(InMemoryConfig::default().name(), "null");
    assert_eq!(InMemoryConfig::default().get_str("a.b"), Err(ConfigError::Missing));
    assert_eq!(InMemoryConfig::git_env(Vec::new()).name(), "git-config-env");
    assert_eq!(InMemoryConfig::git_cli("").name(), "git-cli");
}

#[test]
fn bare_flag_reads_as_true() {
    let params = vec![
        ("a.flag".to_string(), None),
        ("a.b".to_string(), Some("x".to_string())),
        ("a.e".to_string(), Some(String::new())),
    ];
    assert_eq!(
        cli_pairs(params),
        vec![
            ("a.flag".to_string(), "true".to_string()),
            ("a.b".to_string(), "x".to_string()),
            ("a.e".to_string(), String::new()),
        ]
    );
}

#[test]
fn command_line_parameters_are_unquoted_and_split() {
    let store = InMemoryConfig::git_cli("'a.flag' 'a.b=x' 'a.c'='some value' 'a.b=y'");
    assert_eq!(store.get_bool("a.flag"), Ok(true));
    assert_eq!(store.get_string("a.flag"), Ok("true".to_string()));
    assert_eq!(store.get_string("a.b"), Ok("y".to_string()));
    assert_eq!(store.get_string("a.c"), Ok("some value".to_string()));
    assert_eq!(store.get_string("'a.b"), Err(ConfigError::Missing));
    assert_eq!(InMemoryConfig::git_cli("").get_bool("a.flag"), Err(ConfigError::Missing));
}

#[test]
fn environment_store_reads_counted_variables() {
    let vars = pairs(&[
        ("GIT_CONFIG_COUNT", "3"),
        ("GIT_CONFIG_KEY_0", "core.pager"),
        ("GIT_CONFIG_VALUE_0", "less"),
        ("GIT_CONFIG_KEY_1", "core.pager"),
        ("GIT_CONFIG_VALUE_1", "more"),
        ("GIT_CONFIG_KEY_2", "a.n"),
        ("GIT_CONFIG_VALUE_2", "12"),
        ("GIT_CONFIG_KEY_3", "a.beyond"),
        ("GIT_CONFIG_VALUE_3", "1"),
        ("HOME", "/home/someone"),
    ]);
    let store = InMemoryConfig::git_env(vars);
    assert_eq!(store.get_string("core.pager"), Ok("more".to_string()));
    assert_eq!(store.get_i64("a.n"), Ok(12));
    assert_eq!(store.get_string("a.beyond"), Err(ConfigError::Missing));
    assert_eq!(store.get_string("HOME"), Err(ConfigError::Missing));
    assert_eq!(store.get_string("GIT_CONFIG_COUNT"), Err(ConfigError::Missing));
}

#[test]
fn environment_without_count_configures_nothing() {
    let vars = pairs(&[("GIT_CONFIG_KEY_0", "a.b"), ("GIT_CONFIG_VALUE_0", "1")]);
    assert_eq!(InMemoryConfig::git_env(vars).get_string("a.b"), Err(ConfigError::Missing));
}

#[test]
fn failures_have_messages() {
    assert_eq!(ConfigError::Missing.message(), "field is missing");
    assert_eq!(ConfigError::Unparseable.message(), "value could not be parsed");
    assert_eq!(ConfigError::Store("boom".to_string()).message(), "boom");
}

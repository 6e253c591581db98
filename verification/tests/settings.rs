use crud_api::logging::{level_filter_named, string_to_level_filter, LogLevel};
use crud_api::Config;

fn some(text: &str) -> Option<String> {
    Some(text.to_string())
}

#[test]
fn directory_comes_from_the_environment() {
    assert_eq!(Config::init(some("/run/secrets/")).filepath, "/run/secrets/");
    assert_eq!(Config::init(None).filepath, "");
}

#[test]
fn file_is_read_only_where_a_directory_is_set() {
    assert!(Config::init(some("/run/secrets/")).reads_file());
    assert!(!Config::init(None).reads_file());
    assert!(!Config::init(some("")).reads_file());
}

#[test]
fn file_path_is_directory_then_name() {
    let config = Config::init(some("/run/secrets/"));
    assert_eq!(config.config_file_path("POSTGRES_USER"), "/run/secrets/POSTGRES_USER");
    let config = Config::init(some("/etc"));
    assert_eq!(config.config_file_path("POSTGRES_USER"), "/etcPOSTGRES_USER");
    assert_eq!(Config::init(None).config_file_path("X"), "X");
}

#[test]
fn file_wins_where_a_directory_is_set() {
    let config = Config::init(some("/run/secrets/"));
    assert_eq!(config.get_config(some("from file"), some("from env")), some("from file"));
    assert_eq!(config.get_config(some("from file"), None), some("from file"));
    assert_eq!(config.get_config(some(""), some("from env")), some(""));
}

#[test]
fn environment_stands_in_for_an_unreadable_file() {
    let config = Config::init(some("/run/secrets/"));
    assert_eq!(config.get_config(None, some("from env")), some("from env"));
    assert_eq!(config.get_config(None, None), None);
}

#[test]
fn environment_is_the_only_source_without_a_directory() {
    let config = Config::init(None);
    assert_eq!(config.get_config(None, some("from env")), some("from env"));
    assert_eq!(config.get_config(some("from file"), some("from env")), some("from env"));
    assert_eq!(config.get_config(some("from file"), None), None);
}

#[test]
fn five_levels_are_known() {
    assert_eq!(level_filter_named("error"), Some(LogLevel::Error));
    assert_eq!(level_filter_named("warn"), Some(LogLevel::Warn));
    assert_eq!(level_filter_named("info"), Some(LogLevel::Info));
    assert_eq!(level_filter_named("debug"), Some(LogLevel::Debug));
    assert_eq!(level_filter_named("trace"), Some(LogLevel::Trace));
}

#[test]
fn other_names_are_no_level() {
    for name in ["", "off", "INFO", "warning", "info ", " info", "inf", "traces"] {
        assert_eq!(level_filter_named(name), None, "{name}");
    }
}

#[test]
fn level_is_read_in_any_case() {
    assert_eq!(string_to_level_filter(&"INFO".to_string()), Some(LogLevel::Info));
    assert_eq!(string_to_level_filter(&"Error".to_string()), Some(LogLevel::Error));
    assert_eq!(string_to_level_filter(&"wArN".to_string()), Some(LogLevel::Warn));
    assert_eq!(string_to_level_filter(&"DEBUG".to_string()), Some(LogLevel::Debug));
    assert_eq!(string_to_level_filter(&"trace".to_string()), Some(LogLevel::Trace));
}

#[test]
fn unknown_level_is_none_in_any_case() {
    assert_eq!(string_to_level_filter(&"".to_string()), None);
    assert_eq!(string_to_level_filter(&"OFF".to_string()), None);
    assert_eq!(string_to_level_filter(&"verbose".to_string()), None);
}

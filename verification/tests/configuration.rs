use abby_bot::config::{level_from_string, missing_config_suggestion, verbosity, Config, LogConfig, LogLevel, TokenSource};
use abby_bot::error::ConfigError;
use abby_bot::{options, opts};

#[test]
fn levels_by_number() {
    assert_eq!(level_from_string("1"), Some(LogLevel::Error));
    assert_eq!(level_from_string("2"), Some(LogLevel::Warn));
    assert_eq!(level_from_string("3"), Some(LogLevel::Info));
    assert_eq!(level_from_string("4"), Some(LogLevel::Debug));
    assert_eq!(level_from_string("5"), Some(LogLevel::Trace));
    assert_eq!(level_from_string("+5"), Some(LogLevel::Trace));
    assert_eq!(level_from_string("0"), None);
    assert_eq!(level_from_string("6"), None);
}

#[test]
fn levels_by_name_in_any_case() {
    assert_eq!(level_from_string("error"), Some(LogLevel::Error));
    assert_eq!(level_from_string("WARN"), Some(LogLevel::Warn));
    assert_eq!(level_from_string("Info"), Some(LogLevel::Info));
    assert_eq!(level_from_string("DeBuG"), Some(LogLevel::Debug));
    assert_eq!(level_from_string("trace"), Some(LogLevel::Trace));
    assert_eq!(level_from_string("verbose"), None);
    assert_eq!(level_from_string(""), None);
    assert_eq!(level_from_string("info "), None);
}

#[test]
fn verbosity_flags() {
    assert_eq!(verbosity(0), LogLevel::Info);
    assert_eq!(verbosity(1), LogLevel::Debug);
    assert_eq!(verbosity(2), LogLevel::Trace);
    assert_eq!(verbosity(255), LogLevel::Trace);
}

#[test]
fn log_defaults() {
    let d = LogConfig::default();
    assert!(d.location.is_none());
    assert_eq!(d.max_files, 5);
    assert_eq!(d.level, LogLevel::Info);
}

#[test]
fn token_file_comes_first() {
    let both = Config {
        token: Some(String::from("SECRET-REDACTED")),
        token_file: Some(String::from("/run/token")),
        log: LogConfig::default(),
    };
    assert!(matches!(both.read_token(), Ok(TokenSource::File(p)) if p == "/run/token"));
    let inline = Config { token: Some(String::from("abc")), token_file: None, log: LogConfig::default() };
    assert!(matches!(inline.read_token(), Ok(TokenSource::Inline(t)) if t == "abc"));
    let neither = Config { token: None, token_file: None, log: LogConfig::default() };
    assert!(matches!(neither.read_token(), Err(ConfigError::Token)));
}

#[test]
fn suggestions_for_a_missing_configuration() {
    assert_eq!(missing_config_suggestion(true), "Please fill out the generated config file before running.");
    assert_eq!(
        missing_config_suggestion(false),
        "Please make sure the configuration path is either correct or writable before running."
    );
}

#[test]
fn default_paths() {
    let o = options::Opts::parse(false, None, None, 0);
    assert_eq!(o.data_dir, "data");
    assert_eq!(o.config, "data/config.toml");
    assert!(!o.help);
    assert_eq!(o.verbose, 0);
}

#[test]
fn configuration_follows_the_data_directory() {
    let o = options::Opts::parse(true, Some("/var/lib/abbybot/"), None, 2);
    assert_eq!(o.config, "/var/lib/abbybot/config.toml");
    assert!(o.help);
    assert_eq!(o.verbose, 2);
    let o = options::Opts::parse(false, Some("/var/lib/abbybot"), Some(""), 0);
    assert_eq!(o.config, "/var/lib/abbybot/config.toml");
    let o = options::Opts::parse(false, Some(""), None, 0);
    assert_eq!(o.config, "config.toml");
}

#[test]
fn explicit_configuration_is_kept() {
    let o = options::Opts::parse(false, Some("data"), Some("/etc/abby_bot/config.toml"), 1);
    assert_eq!(o.data_dir, "data");
    assert_eq!(o.config, "/etc/abby_bot/config.toml");
    assert_eq!(options::to_pathbuf("a/b"), "a/b");
}

#[test]
fn directories_end_in_a_separator() {
    assert_eq!(opts::to_pathbuf("data"), "data/");
    assert_eq!(opts::to_pathbuf("data/"), "data/");
    assert_eq!(opts::to_pathbuf(""), "/");
    assert_eq!(opts::to_pathbuf(&opts::to_pathbuf("x")), opts::to_pathbuf("x"));
    let o = opts::Opts::parse(false, None, 1);
    assert_eq!(o.data_dir, "./data/");
    assert_eq!(o.verbose, 1);
    let o = opts::Opts::parse(true, Some("/srv/abby"), 0);
    assert_eq!(o.data_dir, "/srv/abby/");
    assert!(o.help);
}

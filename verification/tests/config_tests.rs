use minigrep::config::{Config, ConfigError};

fn args(parts: &[&str]) -> Vec<String> {
    parts.iter().map(|p| p.to_string()).collect()
}

#[test]
fn no_arguments_at_all() {
    let a = args(&[]);
    assert_eq!(Err(ConfigError::InsufficientArguments), Config::new(&a, false).map(|_| ()));
    assert_eq!(Err(ConfigError::InsufficientArguments), Config::new(&a, true).map(|_| ()));
}

#[test]
fn missing_query() {
    let a = args(&["prog"]);
    assert_eq!(Err(ConfigError::MissingQuery), Config::new(&a, false).map(|_| ()));
}

#[test]
fn missing_filename() {
    let a = args(&["prog", "needle"]);
    assert_eq!(Err(ConfigError::MissingFilename), Config::new(&a, false).map(|_| ()));
}

#[test]
fn short_argument_lists_fail_whatever_the_environment() {
    for n in 0..3 {
        let parts: Vec<String> = (0..n).map(|i| format!("arg{}", i)).collect();
        let with_var = Config::new(&parts, true).map(|_| ()).unwrap_err();
        let without_var = Config::new(&parts, false).map(|_| ()).unwrap_err();
        assert_eq!(with_var, without_var);
    }
}

#[test]
fn well_formed_arguments_resolve() {
    let a = args(&["prog", "needle", "haystack.txt"]);
    let config = Config::new(&a, false).unwrap();
    assert_eq!("needle", config.query);
    assert_eq!("haystack.txt", config.filename);
    assert!(config.case_sensitive);
}

#[test]
fn env_var_presence_forces_case_insensitive() {
    let a = args(&["prog", "needle", "haystack.txt"]);
    let config = Config::new(&a, true).unwrap();
    assert!(!config.case_sensitive);
}

#[test]
fn extra_arguments_are_ignored() {
    let a = args(&["prog", "needle", "haystack.txt", "spare"]);
    let config = Config::new(&a, false).unwrap();
    assert_eq!("needle", config.query);
    assert_eq!("haystack.txt", config.filename);
}

#[test]
fn resolution_is_deterministic() {
    let a = args(&["prog", "needle", "haystack.txt"]);
    for present in [false, true] {
        let first = Config::new(&a, present).unwrap();
        let second = Config::new(&a, present).unwrap();
        assert_eq!(first.query, second.query);
        assert_eq!(first.filename, second.filename);
        assert_eq!(first.case_sensitive, second.case_sensitive);
    }
}

#[test]
fn error_messages_are_distinct() {
    let texts = [
        ConfigError::InsufficientArguments.message(),
        ConfigError::MissingQuery.message(),
        ConfigError::MissingFilename.message(),
    ];
    assert_ne!(texts[0], texts[1]);
    assert_ne!(texts[0], texts[2]);
    assert_ne!(texts[1], texts[2]);
}

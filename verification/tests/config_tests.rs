use raws::config::Config;

#[test]
fn get_subcommand_uses_conventional_paths_by_default() {
    let config = Config::new("get", None, None, None);
    match config {
        Some(Config::Get(get_config)) => {
            assert_eq!(get_config.credentials_path, "~/.aws/credentials");
            assert_eq!(get_config.config_path, "~/.aws/config");
        }
        _ => panic!("expected a get configuration"),
    }
}

#[test]
fn set_subcommand_takes_the_given_paths_and_pattern() {
    let config = Config::new(
        "set",
        Some("/tmp/creds".to_string()),
        Some("/tmp/conf".to_string()),
        Some("prod".to_string()),
    );
    match config {
        Some(Config::SetCmd(set_config)) => {
            assert_eq!(set_config.credentials_path, "/tmp/creds");
            assert_eq!(set_config.config_path, "/tmp/conf");
            assert_eq!(set_config.pattern, "prod");
        }
        _ => panic!("expected a set configuration"),
    }
}

#[test]
fn set_subcommand_pattern_defaults_to_empty() {
    let config = Config::new("set", None, None, None);
    match config {
        Some(Config::SetCmd(set_config)) => {
            assert_eq!(set_config.pattern, "");
        }
        _ => panic!("expected a set configuration"),
    }
}

#[test]
fn unknown_subcommand_yields_no_configuration() {
    assert!(Config::new("list", None, None, None).is_none());
}

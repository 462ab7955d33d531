use wapp::cli::{decide, is_supported_provider, Action, Cli, CliError, Commands};

#[test]
fn test_parse_configure() {
    let cli = Cli::parse_from(vec!["wapp", "configure", "weatherapi"]).unwrap();

    match cli.cmd {
        Commands::Configure { provider } => assert_eq!(provider, "weatherapi"),
        _ => panic!("wrong command parsed"),
    }
}

#[test]
fn test_parse_get() {
    let cli = Cli::parse_from(vec![
        "wapp", "get", "--city", "New York", "--data", "forecast",
    ])
    .unwrap();

    match cli.cmd {
        Commands::Get { city, data } => {
            assert_eq!(city.unwrap(), "New York");
            assert_eq!(data, "forecast");
        }
        _ => panic!("wrong command parsed"),
    }
}

#[test]
fn parse_get_defaults_data_to_now() {
    let cli = Cli::parse_from(vec!["wapp", "get", "--city", "Kyiv"]).unwrap();
    match cli.cmd {
        Commands::Get { city, data } => {
            assert_eq!(city.as_deref(), Some("Kyiv"));
            assert_eq!(data, "now");
        }
        _ => panic!("wrong command parsed"),
    }
}

#[test]
fn parse_get_options_in_any_order() {
    let cli = Cli::parse_from(vec!["wapp", "get", "--data", "tomorrow", "--city", "Paris"]).unwrap();
    match cli.cmd {
        Commands::Get { city, data } => {
            assert_eq!(city.as_deref(), Some("Paris"));
            assert_eq!(data, "tomorrow");
        }
        _ => panic!("wrong command parsed"),
    }
}

#[test]
fn parse_get_without_city() {
    let cli = Cli::parse_from(vec!["wapp", "get"]).unwrap();
    match cli.cmd {
        Commands::Get { city, data } => {
            assert!(city.is_none());
            assert_eq!(data, "now");
        }
        _ => panic!("wrong command parsed"),
    }
}

#[test]
fn parse_refuses_missing_command() {
    assert!(matches!(Cli::parse_from(vec!["wapp"]), Err(CliError::MissingCommand)));
}

#[test]
fn parse_refuses_unknown_command() {
    match Cli::parse_from(vec!["wapp", "show"]) {
        Err(CliError::UnknownCommand(c)) => assert_eq!(c, "show"),
        _ => panic!("expected an unknown command"),
    }
}

#[test]
fn parse_refuses_configure_without_provider() {
    assert!(matches!(
        Cli::parse_from(vec!["wapp", "configure"]),
        Err(CliError::MissingProvider)
    ));
}

#[test]
fn parse_refuses_extra_configure_argument() {
    match Cli::parse_from(vec!["wapp", "configure", "weatherapi", "extra"]) {
        Err(CliError::UnexpectedArgument(a)) => assert_eq!(a, "extra"),
        _ => panic!("expected an unexpected argument"),
    }
}

#[test]
fn parse_refuses_option_without_value() {
    match Cli::parse_from(vec!["wapp", "get", "--city"]) {
        Err(CliError::MissingValue(o)) => assert_eq!(o, "--city"),
        _ => panic!("expected a missing value"),
    }
}

#[test]
fn parse_refuses_repeated_option() {
    match Cli::parse_from(vec!["wapp", "get", "--data", "now", "--data", "forecast"]) {
        Err(CliError::DuplicateOption(o)) => assert_eq!(o, "--data"),
        _ => panic!("expected a repeated option"),
    }
}

#[test]
fn parse_refuses_unknown_option() {
    match Cli::parse_from(vec!["wapp", "get", "--town", "Rome"]) {
        Err(CliError::UnexpectedArgument(a)) => assert_eq!(a, "--town"),
        _ => panic!("expected an unexpected argument"),
    }
}

#[test]
fn supported_providers_are_the_two_services() {
    assert!(is_supported_provider("weatherapi"));
    assert!(is_supported_provider("openweather"));
    assert!(!is_supported_provider("accuweather"));
    assert!(!is_supported_provider(""));
}

#[test]
fn decide_saves_a_supported_provider() {
    match decide(Commands::Configure { provider: "openweather".into() }) {
        Action::SaveConfig(cfg) => assert_eq!(cfg.provider, "openweather"),
        _ => panic!("expected the configuration to be saved"),
    }
}

#[test]
fn decide_rejects_an_unsupported_provider() {
    match decide(Commands::Configure { provider: "foo".into() }) {
        Action::RejectProvider(p) => assert_eq!(p, "foo"),
        _ => panic!("expected a rejection"),
    }
}

#[test]
fn decide_requires_a_city() {
    let a = decide(Commands::Get { city: None, data: "now".into() });
    assert!(matches!(a, Action::MissingCity));
}

#[test]
fn decide_fetches_for_a_city() {
    match decide(Commands::Get { city: Some("Kyiv".into()), data: "forecast".into() }) {
        Action::Fetch { city, data } => {
            assert_eq!(city, "Kyiv");
            assert_eq!(data, "forecast");
        }
        _ => panic!("expected a fetch"),
    }
}

#[test]
fn parse_get_accepts_values_after_equals() {
    let cli = Cli::parse_from(vec!["wapp", "get", "--city=Paris", "--data=tomorrow"]).unwrap();
    match cli.cmd {
        Commands::Get { city, data } => {
            assert_eq!(city.as_deref(), Some("Paris"));
            assert_eq!(data, "tomorrow");
        }
        _ => panic!("wrong command parsed"),
    }
}

#[test]
fn parse_get_mixes_both_option_forms() {
    let cli = Cli::parse_from(vec!["wapp", "get", "--data", "forecast", "--city=New York"]).unwrap();
    match cli.cmd {
        Commands::Get { city, data } => {
            assert_eq!(city.as_deref(), Some("New York"));
            assert_eq!(data, "forecast");
        }
        _ => panic!("wrong command parsed"),
    }
}

#[test]
fn parse_refuses_repeated_option_in_either_form() {
    match Cli::parse_from(vec!["wapp", "get", "--city=A", "--city", "B"]) {
        Err(CliError::DuplicateOption(o)) => assert_eq!(o, "--city"),
        _ => panic!("expected a repeated option"),
    }
}

#[test]
fn parse_reports_help() {
    for line in [
        vec!["wapp", "--help"],
        vec!["wapp", "-h"],
        vec!["wapp", "help"],
        vec!["wapp", "get", "--city", "Kyiv", "--help"],
        vec!["wapp", "configure", "-h"],
    ] {
        assert!(matches!(Cli::parse_from(line), Err(CliError::HelpRequested)));
    }
}

use wapp::config::AppConfig;
use wapp::env::EnvVars;
use wapp::error::ProviderError;
use wapp::providers::{provider_factory, Provider};

#[test]
fn test_weatherapi_provider_exists() {
    let mut env = EnvVars::new();
    env.set("WEATHERAPI_KEY".into(), "dummy".into());

    let cfg = AppConfig {
        provider: "weatherapi".into(),
    };

    assert!(provider_factory(&cfg, &env).is_ok());
}

#[test]
fn test_openweather_provider_exists() {
    let mut env = EnvVars::new();
    env.set("OPENWEATHER_KEY".into(), "dummy".into());

    let cfg = AppConfig {
        provider: "openweather".into(),
    };

    assert!(provider_factory(&cfg, &env).is_ok());
}

#[test]
fn test_invalid_provider() {
    let cfg = AppConfig {
        provider: "unknown".into(),
    };

    assert!(provider_factory(&cfg, &EnvVars::new()).is_err());
}

#[test]
fn unknown_provider_names_the_offending_name() {
    let mut env = EnvVars::new();
    env.set("WEATHERAPI_KEY".into(), "dummy".into());
    env.set("OPENWEATHER_KEY".into(), "dummy".into());
    for name in ["unknown", "", "WeatherAPI", "openweather "] {
        let cfg = AppConfig { provider: name.into() };
        match provider_factory(&cfg, &env) {
            Err(ProviderError::UnsupportedProvider(n)) => assert_eq!(n, name),
            _ => panic!("expected an unsupported provider"),
        }
    }
}

#[test]
fn resolved_provider_matches_the_name() {
    let mut env = EnvVars::new();
    env.set("WEATHERAPI_KEY".into(), "wk".into());
    env.set("OPENWEATHER_KEY".into(), "ok".into());
    match provider_factory(&AppConfig { provider: "weatherapi".into() }, &env) {
        Ok(Provider::WeatherApi(p)) => assert_eq!(p.api_key, "wk"),
        _ => panic!("expected the WeatherAPI provider"),
    }
    match provider_factory(&AppConfig { provider: "openweather".into() }, &env) {
        Ok(Provider::OpenWeather(p)) => assert_eq!(p.api_key, "ok"),
        _ => panic!("expected the OpenWeatherMap provider"),
    }
}

#[test]
fn missing_weatherapi_key_is_reported() {
    let mut env = EnvVars::new();
    env.set("OPENWEATHER_KEY".into(), "dummy".into());
    match provider_factory(&AppConfig { provider: "weatherapi".into() }, &env) {
        Err(ProviderError::MissingCredential(v)) => assert_eq!(v, "WEATHERAPI_KEY"),
        _ => panic!("expected a missing credential"),
    }
}

#[test]
fn missing_openweather_key_is_reported() {
    let mut env = EnvVars::new();
    env.set("WEATHERAPI_KEY".into(), "dummy".into());
    match provider_factory(&AppConfig { provider: "openweather".into() }, &env) {
        Err(ProviderError::MissingCredential(v)) => assert_eq!(v, "OPENWEATHER_KEY"),
        _ => panic!("expected a missing credential"),
    }
}

#[test]
fn error_messages_name_the_cause() {
    let e = ProviderError::UnsupportedProvider("foo".into());
    assert_eq!(e.message(), "Unsupported provider: foo");
    let e = ProviderError::UnsupportedRequestKind("week".into());
    assert_eq!(e.message(), "Unknown data type: week");
}

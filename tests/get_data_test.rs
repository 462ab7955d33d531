use wapp::error::ProviderError;
use wapp::providers::{finish_fetch, ApiProvider, OpenWeatherProvider, Step, WeatherApiProvider};

struct MockProvider {
    response: String,
}

impl ApiProvider for MockProvider {
    fn get_data(&self, _city: String, _when: String) -> Step {
        Step::Done(Ok(self.response.clone()))
    }
}

/// The caller's path: one step, then at most one request, whose body comes
/// from `transport`.
fn run<P: ApiProvider + ?Sized>(
    p: &P,
    city: &str,
    when: &str,
    transport: impl Fn(&str) -> Result<String, String>,
) -> Result<String, ProviderError> {
    match p.get_data(city.into(), when.into()) {
        Step::Fetch(url) => finish_fetch(transport(&url)),
        Step::Done(r) => r,
    }
}

#[test]
fn test_get_data_with_mock() {
    let mock = MockProvider {
        response: "DATA_OK".into(),
    };

    let out = match mock.get_data("Kyiv".into(), "now".into()) {
        Step::Done(r) => r.unwrap(),
        Step::Fetch(_) => panic!("the mock makes no request"),
    };

    assert_eq!(out, "DATA_OK");
}

#[test]
fn mock_and_real_providers_share_the_call_path() {
    let providers: Vec<Box<dyn ApiProvider>> = vec![
        Box::new(MockProvider { response: "DATA_OK".into() }),
        Box::new(WeatherApiProvider { api_key: "k".into(), base_url: "http://h".into(), lang: None }),
    ];
    let echo = |url: &str| Ok(format!("body of {}", url));
    assert_eq!(run(providers[0].as_ref(), "Kyiv", "now", echo).unwrap(), "DATA_OK");
    assert_eq!(
        run(providers[1].as_ref(), "Kyiv", "now", echo).unwrap(),
        "body of http://h/current.json?key=k&q=Kyiv"
    );
}

#[test]
fn body_is_returned_verbatim() {
    let r = finish_fetch(Ok("{\"temp\": 3}".into()));
    assert_eq!(r.unwrap(), "{\"temp\": 3}");
}

#[test]
fn transport_failure_keeps_its_cause() {
    match finish_fetch(Err("connection refused".into())) {
        Err(ProviderError::TransportError(c)) => assert_eq!(c, "connection refused"),
        _ => panic!("expected a transport error"),
    }
}

#[test]
fn real_provider_asks_for_a_fetch() {
    let p = OpenWeatherProvider {
        api_key: "k".into(),
        base_url: "http://h".into(),
        units: None,
        lang: None,
    };
    match p.get_data("Kyiv".into(), "forecast".into()) {
        Step::Fetch(url) => assert_eq!(url, "http://h/forecast?q=Kyiv&appid=k"),
        Step::Done(_) => panic!("expected a request"),
    }
    match p.get_data("Kyiv".into(), "week".into()) {
        Step::Done(Err(ProviderError::UnsupportedRequestKind(k))) => assert_eq!(k, "week"),
        _ => panic!("expected an unsupported kind"),
    }
}

#[test]
fn resolved_weatherapi_handle_fetches_default_address() {
    let mut env = wapp::env::EnvVars::new();
    env.set("WEATHERAPI_KEY".into(), "dummy".into());
    let cfg = wapp::config::AppConfig { provider: "weatherapi".into() };
    let h = wapp::providers::provider_factory(&cfg, &env).unwrap();
    match h.get_data("Kyiv".into(), "now".into()) {
        Step::Fetch(url) => {
            assert_eq!(url, "https://api.weatherapi.com/v1/current.json?key=dummy&q=Kyiv")
        }
        Step::Done(_) => panic!("expected a request"),
    }
}

#[test]
fn openweather_get_data_tomorrow_matches_forecast() {
    let p = OpenWeatherProvider {
        api_key: "k".into(),
        base_url: "https://h".into(),
        units: Some("metric".into()),
        lang: None,
    };
    let urls: Vec<String> = ["tomorrow", "forecast"]
        .iter()
        .map(|k| match p.get_data("Paris".into(), (*k).into()) {
            Step::Fetch(url) => url,
            Step::Done(_) => panic!("expected a request"),
        })
        .collect();
    assert_eq!(urls[0], "https://h/forecast?q=Paris&appid=k&units=metric");
    assert_eq!(urls[0], urls[1]);
}

#[test]
fn unreserved_city_is_left_as_is() {
    let p = OpenWeatherProvider {
        api_key: "k".into(),
        base_url: "https://h".into(),
        units: None,
        lang: None,
    };
    match p.get_data("Az09-._~".into(), "now".into()) {
        Step::Fetch(url) => assert_eq!(url, "https://h/weather?q=Az09-._~&appid=k"),
        Step::Done(_) => panic!("expected a request"),
    }
}

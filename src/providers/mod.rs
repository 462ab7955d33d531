//! The provider contract, its two implementations, and the resolver that
//! picks one by name.

use vstd::prelude::*;

use crate::config::AppConfig;
use crate::env::EnvVars;
use crate::error::{text_result_view, ProviderError, ProviderErrorView};
use crate::text::{opt_view, str_eq};

pub use crate::percent::url_encoded;

pub mod laws;
pub mod openweather;
pub mod weatherapi;

pub use openweather::{OpenWeatherModel, OpenWeatherProvider};
pub use openweather::OPENWEATHER_KEY_VAR;
pub use weatherapi::{WeatherApiModel, WeatherApiProvider, WEATHERAPI_KEY_VAR};

verus! {

/// Relies on `urlencoding::encode`: percent-encodes every byte of the UTF-8
/// form of `s` except ASCII alphanumerics and `-`, `_`, `.`, `~`, each as `%`
/// and two upper-case hex digits.
#[verifier::external_body]
pub(crate) fn encode_component(s: &str) -> (r: String)
    ensures
        r@ == url_encoded(s@),
{
    urlencoding::encode(s).into_owned()
}

/// The temporal scope of a weather query.
#[derive(Debug, Clone, Copy, PartialEq, Eq, Structural)]
pub enum TemporalKind {
    Now,
    Forecast,
    Tomorrow,
}

/// The kind that a request string names, if any.
pub open spec fn kind_of(s: Seq<char>) -> Option<TemporalKind> {
    if s == "now"@ {
        Some(TemporalKind::Now)
    } else if s == "forecast"@ {
        Some(TemporalKind::Forecast)
    } else if s == "tomorrow"@ {
        Some(TemporalKind::Tomorrow)
    } else {
        None
    }
}

/// Reads a request kind: `now`, `forecast` or `tomorrow`.
pub fn parse_kind(s: &str) -> (r: Option<TemporalKind>)
    ensures
        r == kind_of(s@),
{
    if str_eq(s, "now") {
        Some(TemporalKind::Now)
    } else if str_eq(s, "forecast") {
        Some(TemporalKind::Forecast)
    } else if str_eq(s, "tomorrow") {
        Some(TemporalKind::Tomorrow)
    } else {
        None
    }
}

/// `&name=value` when a value is present, nothing otherwise.
pub open spec fn query_param(name: Seq<char>, value: Option<Seq<char>>) -> Seq<char> {
    match value {
        Some(v) => "&"@ + name + "="@ + v,
        None => Seq::empty(),
    }
}

/// Appends `&name=value` to `url` when `value` is present.
pub(crate) fn push_param(url: &mut String, name: &str, value: &Option<String>)
    ensures
        final(url)@ == old(url)@ + query_param(name@, opt_view(*value)),
{
    match value {
        Some(v) => {
            url.append("&");
            url.append(name);
            url.append("=");
            url.append(v.as_str());
            assert(final(url)@ =~= old(url)@ + query_param(name@, opt_view(*value)));
        },
        None => {
            assert(final(url)@ =~= old(url)@ + query_param(name@, opt_view(*value)));
        },
    }
}

/// The error for a request kind that no provider serves.
pub(crate) fn unsupported_kind(kind: &str) -> (r: ProviderError)
    ensures
        r@ == ProviderErrorView::UnsupportedRequestKind(kind@),
{
    ProviderError::UnsupportedRequestKind(kind.to_owned())
}

/// What a provider asks of its caller for one query: fetch a URL, or take
/// the answer as it stands.
#[derive(Debug)]
pub enum Step {
    /// Perform one HTTP GET on this URL and hand the outcome to [`finish_fetch`].
    Fetch(String),
    /// The answer, with no request to make.
    Done(Result<String, ProviderError>),
}

/// Fetching weather data for a city and a kind of query (`now`, `forecast`,
/// `tomorrow`).
///
/// A provider turns the query into a [`Step`]. The caller performs the one
/// request it asks for, if any, and the answer is the unmodified response
/// body or an error.
pub trait ApiProvider {
    fn get_data(&self, city: String, when: String) -> Step;
}

/// The step for a request whose URL was built, or could not be.
pub fn step_for(request: Result<String, ProviderError>) -> (r: Step)
    ensures
        match request {
            Ok(u) => r is Fetch && r->Fetch_0 == u,
            Err(e) => r is Done && r->Done_0 == Err::<String, ProviderError>(e),
        },
{
    match request {
        Ok(u) => Step::Fetch(u),
        Err(e) => Step::Done(Err(e)),
    }
}

/// The answer to a query, given the outcome of its HTTP request: the body
/// verbatim, or the transport failure with its cause.
pub fn finish_fetch(response: Result<String, String>) -> (r: Result<String, ProviderError>)
    ensures
            text_result_view(r) == match response {
                Ok(body) => Ok(body@),
                Err(cause) => Err(ProviderErrorView::TransportError(cause@)),
            },
{
    match response {
        Ok(body) => Ok(body),
        Err(cause) => Err(ProviderError::TransportError(cause)),
    }
}

impl ApiProvider for OpenWeatherProvider {
    fn get_data(&self, city: String, kind: String) -> (r: Step)
        ensures
            match self@.request_url(city@, kind@) {
                Some(u) => r is Fetch && r->Fetch_0@ == u,
                None => r is Done && r->Done_0 is Err && r->Done_0->Err_0@
                    == ProviderErrorView::UnsupportedRequestKind(kind@),
            },
    {
        step_for(self.request_url(city.as_str(), kind.as_str()))
    }
}

impl ApiProvider for WeatherApiProvider {
    fn get_data(&self, city: String, kind: String) -> (r: Step)
        ensures
            match self@.request_url(city@, kind@) {
                Some(u) => r is Fetch && r->Fetch_0@ == u,
                None => r is Done && r->Done_0 is Err && r->Done_0->Err_0@
                    == ProviderErrorView::UnsupportedRequestKind(kind@),
            },
    {
        step_for(self.request_url(city.as_str(), kind.as_str()))
    }
}

/// A provider chosen at run time by its configured name.
#[derive(Debug, Clone)]
pub enum Provider {
    WeatherApi(WeatherApiProvider),
    OpenWeather(OpenWeatherProvider),
}

/// The mathematical value of a [`Provider`].
pub ghost enum ProviderModel {
    WeatherApi(WeatherApiModel),
    OpenWeather(OpenWeatherModel),
}

impl View for Provider {
    type V = ProviderModel;

    open spec fn view(&self) -> ProviderModel {
        match self {
            Provider::WeatherApi(p) => ProviderModel::WeatherApi(p@),
            Provider::OpenWeather(p) => ProviderModel::OpenWeather(p@),
        }
    }
}

impl ProviderModel {
    /// The address requested for `city` and the kind named `kind`; none when
    /// the name is not a kind.
    pub open spec fn request_url(self, city: Seq<char>, kind: Seq<char>) -> Option<Seq<char>> {
        match self {
            ProviderModel::WeatherApi(m) => m.request_url(city, kind),
            ProviderModel::OpenWeather(m) => m.request_url(city, kind),
        }
    }
}

impl Provider {
    /// The address to request for `city` and the kind named `kind`.
    pub fn request_url(&self, city: &str, kind: &str) -> (r: Result<String, ProviderError>)
        ensures
            match r {
                Ok(u) => self@.request_url(city@, kind@) == Some(u@),
                Err(e) => self@.request_url(city@, kind@) is None && e@
                    == ProviderErrorView::UnsupportedRequestKind(kind@),
            },
    {
        match self {
            Provider::WeatherApi(p) => p.request_url(city, kind),
            Provider::OpenWeather(p) => p.request_url(city, kind),
        }
    }
}

impl ApiProvider for Provider {
    fn get_data(&self, city: String, kind: String) -> (r: Step)
        ensures
            match self@.request_url(city@, kind@) {
                Some(u) => r is Fetch && r->Fetch_0@ == u,
                None => r is Done && r->Done_0 is Err && r->Done_0->Err_0@
                    == ProviderErrorView::UnsupportedRequestKind(kind@),
            },
    {
        step_for(self.request_url(city.as_str(), kind.as_str()))
    }
}

/// The provider that the name `name` selects, built from `env`: `weatherapi`
/// and `openweather` are known; a missing key fails that provider's
/// construction.
pub open spec fn resolve(name: Seq<char>, env: Seq<(Seq<char>, Seq<char>)>) -> Result<
    ProviderModel,
    ProviderErrorView,
> {
    if name == "weatherapi"@ {
        match WeatherApiModel::from_env(env) {
            Some(m) => Ok(ProviderModel::WeatherApi(m)),
            None => Err(ProviderErrorView::MissingCredential(WEATHERAPI_KEY_VAR@)),
        }
    } else if name == "openweather"@ {
        match OpenWeatherModel::from_env(env) {
            Some(m) => Ok(ProviderModel::OpenWeather(m)),
            None => Err(ProviderErrorView::MissingCredential(OPENWEATHER_KEY_VAR@)),
        }
    } else {
        Err(ProviderErrorView::UnsupportedProvider(name))
    }
}

/// Builds the provider that `cfg` names, from the variables in `env`.
pub fn provider_factory(cfg: &AppConfig, env: &EnvVars) -> (r: Result<Provider, ProviderError>)
    ensures
        match r {
            Ok(p) => resolve(cfg.provider@, env@) == Ok::<ProviderModel, ProviderErrorView>(p@),
            Err(e) => resolve(cfg.provider@, env@) == Err::<ProviderModel, ProviderErrorView>(e@),
        },
{
    let name = cfg.provider.as_str();
    if str_eq(name, "weatherapi") {
        match WeatherApiProvider::from_env(env) {
            Ok(p) => Ok(Provider::WeatherApi(p)),
            Err(e) => Err(e),
        }
    } else if str_eq(name, "openweather") {
        match OpenWeatherProvider::from_env(env) {
            Ok(p) => Ok(Provider::OpenWeather(p)),
            Err(e) => Err(e),
        }
    } else {
        Err(ProviderError::UnsupportedProvider(name.to_owned()))
    }
}

} // verus!

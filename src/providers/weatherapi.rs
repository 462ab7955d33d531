use vstd::prelude::*;

use crate::env::{lookup, EnvVars};
use crate::error::{ProviderError, ProviderErrorView};
use crate::text::opt_view;

use super::{encode_component, kind_of, parse_kind, push_param, query_param, unsupported_kind, url_encoded, TemporalKind};

verus! {

/// The variable that holds the WeatherAPI key.
pub const WEATHERAPI_KEY_VAR: &'static str = "WEATHERAPI_KEY";

/// The variable that overrides the base URL.
pub const WEATHERAPI_BASE_URL_VAR: &'static str = "WEATHERAPI_BASE_URL";

/// The variable that selects the response language.
pub const WEATHERAPI_LANG_VAR: &'static str = "WEATHERAPI_LANG";

/// The base URL used when none is configured.
pub const WEATHERAPI_DEFAULT_BASE_URL: &'static str = "https://api.weatherapi.com/v1";

/// Provider for the WeatherAPI service, which asks for forecasts by a count
/// of days.
#[derive(Debug, Clone)]
pub struct WeatherApiProvider {
    pub api_key: String,
    pub base_url: String,
    pub lang: Option<String>,
}

/// The mathematical value of a [`WeatherApiProvider`].
pub ghost struct WeatherApiModel {
    pub api_key: Seq<char>,
    pub base_url: Seq<char>,
    pub lang: Option<Seq<char>>,
}

impl View for WeatherApiProvider {
    type V = WeatherApiModel;

    open spec fn view(&self) -> WeatherApiModel {
        WeatherApiModel { api_key: self.api_key@, base_url: self.base_url@, lang: opt_view(self.lang) }
    }
}

impl WeatherApiModel {
    /// The provider that the variables in `env` configure, if the key is set.
    pub open spec fn from_env(env: Seq<(Seq<char>, Seq<char>)>) -> Option<WeatherApiModel> {
        match lookup(env, WEATHERAPI_KEY_VAR@) {
            None => None,
            Some(key) => Some(
                WeatherApiModel {
                    api_key: key,
                    base_url: match lookup(env, WEATHERAPI_BASE_URL_VAR@) {
                        Some(b) => b,
                        None => WEATHERAPI_DEFAULT_BASE_URL@,
                    },
                    lang: lookup(env, WEATHERAPI_LANG_VAR@),
                },
            ),
        }
    }

    /// Everything of a forecast address up to its day count.
    pub open spec fn forecast_prefix(self, city: Seq<char>) -> Seq<char> {
        self.base_url + "/forecast.json?key="@ + self.api_key + "&q="@ + url_encoded(city)
    }

    /// The address requested for `city` and `kind`: the current conditions,
    /// or a forecast of three days, or of one day for tomorrow.
    pub open spec fn url(self, city: Seq<char>, kind: TemporalKind) -> Seq<char> {
        match kind {
            TemporalKind::Now => self.base_url + "/current.json?key="@ + self.api_key + "&q="@
                + url_encoded(city) + query_param("lang"@, self.lang),
            TemporalKind::Forecast => self.forecast_prefix(city) + "&days=3"@ + query_param(
                "lang"@,
                self.lang,
            ),
            TemporalKind::Tomorrow => self.forecast_prefix(city) + "&days=1"@ + query_param(
                "lang"@,
                self.lang,
            ),
        }
    }

    /// The address requested for `city` and the kind named `kind`; none when
    /// the name is not a kind.
    pub open spec fn request_url(self, city: Seq<char>, kind: Seq<char>) -> Option<Seq<char>> {
        match kind_of(kind) {
            Some(k) => Some(self.url(city, k)),
            None => None,
        }
    }
}

impl WeatherApiProvider {
    /// Builds the provider from the variables in `env`.
    pub fn from_env(env: &EnvVars) -> (r: Result<WeatherApiProvider, ProviderError>)
        ensures
            match r {
                Ok(p) => WeatherApiModel::from_env(env@) == Some(p@),
                Err(e) => WeatherApiModel::from_env(env@) is None && e@
                    == ProviderErrorView::MissingCredential(WEATHERAPI_KEY_VAR@),
            },
    {
        let api_key = match env.get(WEATHERAPI_KEY_VAR) {
            Some(k) => k,
            None => {
                return Err(ProviderError::MissingCredential(WEATHERAPI_KEY_VAR.to_owned()));
            },
        };
        let base_url = match env.get(WEATHERAPI_BASE_URL_VAR) {
            Some(b) => b,
            None => WEATHERAPI_DEFAULT_BASE_URL.to_owned(),
        };
        let lang = env.get(WEATHERAPI_LANG_VAR);
        let p = WeatherApiProvider { api_key, base_url, lang };
        assert(WeatherApiModel::from_env(env@) == Some(p@));
        Ok(p)
    }

    /// The address to request for `city` and the kind named `kind`.
    pub fn request_url(&self, city: &str, kind: &str) -> (r: Result<String, ProviderError>)
        ensures
            match r {
                Ok(u) => self@.request_url(city@, kind@) == Some(u@),
                Err(e) => self@.request_url(city@, kind@) is None && e@
                    == ProviderErrorView::UnsupportedRequestKind(kind@),
            },
    {
        let k = match parse_kind(kind) {
            Some(k) => k,
            None => {
                return Err(unsupported_kind(kind));
            },
        };
        let mut url = self.base_url.clone();
        match k {
            TemporalKind::Now => url.append("/current.json?key="),
            _ => url.append("/forecast.json?key="),
        }
        url.append(self.api_key.as_str());
        url.append("&q=");
        let encoded = encode_component(city);
        url.append(encoded.as_str());
        match k {
            TemporalKind::Now => {},
            TemporalKind::Forecast => url.append("&days=3"),
            TemporalKind::Tomorrow => url.append("&days=1"),
        }
        push_param(&mut url, "lang", &self.lang);
        assert(url@ =~= self@.url(city@, k));
        Ok(url)
    }
}

} // verus!

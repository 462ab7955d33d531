use vstd::prelude::*;

use crate::env::{lookup, EnvVars};
use crate::error::{ProviderError, ProviderErrorView};
use crate::text::opt_view;

use super::{encode_component, kind_of, parse_kind, push_param, query_param, unsupported_kind, url_encoded, TemporalKind};

verus! {

/// The variable that holds the OpenWeatherMap API key.
pub const OPENWEATHER_KEY_VAR: &'static str = "OPENWEATHER_KEY";

/// The variable that overrides the base URL.
pub const OPENWEATHER_BASE_URL_VAR: &'static str = "OPENWEATHER_BASE_URL";

/// The variable that selects units of measurement.
pub const OPENWEATHER_UNITS_VAR: &'static str = "OPENWEATHER_UNITS";

/// The variable that selects the response language.
pub const OPENWEATHER_LANG_VAR: &'static str = "OPENWEATHER_LANG";

/// The base URL used when none is configured.
pub const OPENWEATHER_DEFAULT_BASE_URL: &'static str = "https://api.openweathermap.org/data/3.0";

/// Provider for the OpenWeatherMap API, which splits current weather from
/// forecasts and knows no day count.
#[derive(Debug, Clone)]
pub struct OpenWeatherProvider {
    pub api_key: String,
    pub base_url: String,
    pub units: Option<String>,
    pub lang: Option<String>,
}

/// The mathematical value of an [`OpenWeatherProvider`].
pub ghost struct OpenWeatherModel {
    pub api_key: Seq<char>,
    pub base_url: Seq<char>,
    pub units: Option<Seq<char>>,
    pub lang: Option<Seq<char>>,
}

impl View for OpenWeatherProvider {
    type V = OpenWeatherModel;

    open spec fn view(&self) -> OpenWeatherModel {
        OpenWeatherModel {
            api_key: self.api_key@,
            base_url: self.base_url@,
            units: opt_view(self.units),
            lang: opt_view(self.lang),
        }
    }
}

impl OpenWeatherModel {
    /// The provider that the variables in `env` configure, if the key is set.
    pub open spec fn from_env(env: Seq<(Seq<char>, Seq<char>)>) -> Option<OpenWeatherModel> {
        match lookup(env, OPENWEATHER_KEY_VAR@) {
            None => None,
            Some(key) => Some(
                OpenWeatherModel {
                    api_key: key,
                    base_url: match lookup(env, OPENWEATHER_BASE_URL_VAR@) {
                        Some(b) => b,
                        None => OPENWEATHER_DEFAULT_BASE_URL@,
                    },
                    units: lookup(env, OPENWEATHER_UNITS_VAR@),
                    lang: lookup(env, OPENWEATHER_LANG_VAR@),
                },
            ),
        }
    }

    /// The path for a kind: `/weather` for now, `/forecast` for the others.
    pub open spec fn endpoint(kind: TemporalKind) -> Seq<char> {
        match kind {
            TemporalKind::Now => "/weather"@,
            _ => "/forecast"@,
        }
    }

    /// The address requested for `city` and `kind`.
    pub open spec fn url(self, city: Seq<char>, kind: TemporalKind) -> Seq<char> {
        self.base_url + Self::endpoint(kind) + "?q="@ + url_encoded(city) + "&appid="@
            + self.api_key + query_param("units"@, self.units) + query_param("lang"@, self.lang)
    }

    /// The address requested for `city` and the kind named `kind`; none when
    /// the name is not a kind.
    pub open spec fn request_url(self, city: Seq<char>, kind: Seq<char>) -> Option<Seq<char>> {
        match kind_of(kind) {
            Some(k) => Some(self.url(city, k)),
            None => None,
        }
    }
}

impl OpenWeatherProvider {
    /// Builds the provider from the variables in `env`.
    pub fn from_env(env: &EnvVars) -> (r: Result<OpenWeatherProvider, ProviderError>)
        ensures
            match r {
                Ok(p) => OpenWeatherModel::from_env(env@) == Some(p@),
                Err(e) => OpenWeatherModel::from_env(env@) is None && e@
                    == ProviderErrorView::MissingCredential(OPENWEATHER_KEY_VAR@),
            },
    {
        let api_key = match env.get(OPENWEATHER_KEY_VAR) {
            Some(k) => k,
            None => {
                return Err(ProviderError::MissingCredential(OPENWEATHER_KEY_VAR.to_owned()));
            },
        };
        let base_url = match env.get(OPENWEATHER_BASE_URL_VAR) {
            Some(b) => b,
            None => OPENWEATHER_DEFAULT_BASE_URL.to_owned(),
        };
        let units = env.get(OPENWEATHER_UNITS_VAR);
        let lang = env.get(OPENWEATHER_LANG_VAR);
        let p = OpenWeatherProvider { api_key, base_url, units, lang };
        assert(OpenWeatherModel::from_env(env@) == Some(p@));
        Ok(p)
    }

    /// The address to request for `city` and the kind named `kind`.
    pub fn request_url(&self, city: &str, kind: &str) -> (r: Result<String, ProviderError>)
        ensures
            match r {
                Ok(u) => self@.request_url(city@, kind@) == Some(u@),
                Err(e) => self@.request_url(city@, kind@) is None && e@
                    == ProviderErrorView::UnsupportedRequestKind(kind@),
            },
    {
        let k = match parse_kind(kind) {
            Some(k) => k,
            None => {
                return Err(unsupported_kind(kind));
            },
        };
        let mut url = self.base_url.clone();
        match k {
            TemporalKind::Now => url.append("/weather"),
            _ => url.append("/forecast"),
        }
        url.append("?q=");
        let encoded = encode_component(city);
        url.append(encoded.as_str());
        url.append("&appid=");
        url.append(self.api_key.as_str());
        push_param(&mut url, "units", &self.units);
        push_param(&mut url, "lang", &self.lang);
        assert(url@ =~= self@.url(city@, k));
        Ok(url)
    }
}

} // verus!

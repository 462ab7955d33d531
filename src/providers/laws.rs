//! What holds of the resolver and of the request addresses, for all inputs.

use vstd::prelude::*;

use crate::env::lookup;

use super::{
    kind_of, query_param, resolve, url_encoded, OpenWeatherModel, ProviderModel, WeatherApiModel,
    OPENWEATHER_KEY_VAR, WEATHERAPI_KEY_VAR,
};
use crate::error::ProviderErrorView;

verus! {

proof fn lemma_kind_names_distinct()
    ensures
        "now"@ != "forecast"@,
        "now"@ != "tomorrow"@,
        "forecast"@ != "tomorrow"@,
        kind_of("now"@) == Some(super::TemporalKind::Now),
        kind_of("forecast"@) == Some(super::TemporalKind::Forecast),
        kind_of("tomorrow"@) == Some(super::TemporalKind::Tomorrow),
{
    reveal_strlit("now");
    reveal_strlit("forecast");
    reveal_strlit("tomorrow");
    assert("now"@.len() != "forecast"@.len());
    assert("now"@.len() != "tomorrow"@.len());
    assert("forecast"@[0] != "tomorrow"@[0]);
}

/// A name other than `weatherapi` and `openweather` is refused as an
/// unsupported provider, whatever the environment holds.
pub proof fn lemma_unknown_provider_refused(name: Seq<char>, env: Seq<(Seq<char>, Seq<char>)>)
    requires
        name != "weatherapi"@,
        name != "openweather"@,
    ensures
        resolve(name, env) == Err::<ProviderModel, ProviderErrorView>(
            ProviderErrorView::UnsupportedProvider(name),
        ),
{
}

/// A supported name whose credential variable is set resolves to a provider
/// of the kind that the name selects.
pub proof fn lemma_supported_provider_resolves(name: Seq<char>, env: Seq<(Seq<char>, Seq<char>)>)
    requires
        (name == "weatherapi"@ && lookup(env, WEATHERAPI_KEY_VAR@) is Some) || (name
            == "openweather"@ && lookup(env, OPENWEATHER_KEY_VAR@) is Some),
    ensures
        resolve(name, env) is Ok,
        name == "weatherapi"@ ==> resolve(name, env)->Ok_0 is WeatherApi,
        name == "openweather"@ ==> resolve(name, env)->Ok_0 is OpenWeather,
{
    reveal_strlit("weatherapi");
    reveal_strlit("openweather");
    assert("weatherapi"@[0] != "openweather"@[0]);
}

/// OpenWeatherMap knows no day count: `forecast` and `tomorrow` request the
/// same address.
pub proof fn lemma_openweather_tomorrow_is_forecast(p: OpenWeatherModel, city: Seq<char>)
    ensures
        p.request_url(city, "tomorrow"@) is Some,
        p.request_url(city, "forecast"@) == p.request_url(city, "tomorrow"@),
{
    lemma_kind_names_distinct();
}

/// WeatherAPI asks for one day for `tomorrow` and three for `forecast`; the
/// two addresses agree but for that count.
pub proof fn lemma_weatherapi_day_counts(p: WeatherApiModel, city: Seq<char>)
    ensures
        p.request_url(city, "tomorrow"@) == Some(
            p.forecast_prefix(city) + "&days=1"@ + query_param("lang"@, p.lang),
        ),
        p.request_url(city, "forecast"@) == Some(
            p.forecast_prefix(city) + "&days=3"@ + query_param("lang"@, p.lang),
        ),
        p.request_url(city, "tomorrow"@) != p.request_url(city, "forecast"@),
{
    lemma_kind_names_distinct();
    reveal_strlit("&days=1");
    reveal_strlit("&days=3");
    let pre = p.forecast_prefix(city);
    let post = query_param("lang"@, p.lang);
    let t = pre + "&days=1"@ + post;
    let f = pre + "&days=3"@ + post;
    assert(t[pre.len() as int + 6] == '1');
    assert(f[pre.len() as int + 6] == '3');
}

/// A name that is not `now`, `forecast` or `tomorrow` is refused by every
/// provider.
pub proof fn lemma_unknown_kind_refused(p: ProviderModel, city: Seq<char>, kind: Seq<char>)
    requires
        kind != "now"@,
        kind != "forecast"@,
        kind != "tomorrow"@,
    ensures
        p.request_url(city, kind) is None,
{
}

/// Every address that a provider requests holds the city percent-encoded.
pub proof fn lemma_city_is_encoded(p: ProviderModel, city: Seq<char>, kind: Seq<char>)
    requires
        kind_of(kind) is Some,
    ensures
        exists|i: int|
            0 <= i && i + url_encoded(city).len() <= p.request_url(city, kind)->Some_0.len()
                && #[trigger] p.request_url(city, kind)->Some_0.subrange(
                i,
                i + url_encoded(city).len(),
            ) == url_encoded(city),
{
    let u = p.request_url(city, kind)->Some_0;
    let enc = url_encoded(city);
    let k = kind_of(kind)->Some_0;
    let pre: Seq<char> = match p {
        ProviderModel::OpenWeather(m) => m.base_url + OpenWeatherModel::endpoint(k) + "?q="@,
        ProviderModel::WeatherApi(m) => match k {
            super::TemporalKind::Now => m.base_url + "/current.json?key="@ + m.api_key + "&q="@,
            _ => m.base_url + "/forecast.json?key="@ + m.api_key + "&q="@,
        },
    };
    let post = u.subrange(pre.len() + enc.len() as int, u.len() as int);
    assert(u =~= pre + enc + post);
    assert(u.subrange(pre.len() as int, pre.len() + enc.len() as int) =~= enc);
}

} // verus!

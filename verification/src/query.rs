//! Query construction: one function per API endpoint, each producing
//! the full request URL from typed parameters.
//!
//! Every function states the exact ordered sequence of key/value pairs
//! it encodes. Day-count parameters are bounds-checked here, before any
//! URL exists, so a rejected count never reaches the network.

use vstd::prelude::*;
use vstd::string::StringExecFns;
use crate::num::{dec_digits, signed_digits, u64_to_dec, i64_to_dec};
use crate::params::{
    pairs_view, settings_params, location_params, Coordinates, LocationSpecifier, Settings,
};
use crate::Error;

verus! {

/// The fixed base path every endpoint URL starts from.
pub open spec fn api_base() -> Seq<char> {
    "https://api.openweathermap.org/data/2.5/"@
}

fn api_base_string() -> (r: String)
    ensures
        r@ == api_base(),
{
    "https://api.openweathermap.org/data/2.5/".to_owned()
}

/// The text of the URL obtained by parsing `base` and appending
/// `params`, percent-encoded, as its query string.
pub uninterp spec fn encoded_url(base: Seq<char>, params: Seq<(Seq<char>, Seq<char>)>) -> Seq<char>;

/// Whether `base` parses as a URL, so that appending `params` to it
/// succeeds.
pub uninterp spec fn parse_ok(base: Seq<char>, params: Seq<(Seq<char>, Seq<char>)>) -> bool;

/// Relies on url::Url::parse_with_params: on success the returned text
/// is the parsed base URL with `params` appended percent-encoded as its
/// query string; whether it succeeds, and what it returns, depend on
/// the arguments alone.
#[verifier::external_body]
fn parse_with_params(base: &str, params: &Vec<(String, String)>) -> (r: Result<String, String>)
    ensures
        (r matches Ok(_)) <==> parse_ok(base@, pairs_view(params@)),
        r matches Ok(u) ==> u@ == encoded_url(base@, pairs_view(params@)),
{
    match url::Url::parse_with_params(base, params.iter()) {
        Ok(u) => Ok(String::from(u)),
        Err(e) => Err(e.to_string()),
    }
}

/// Assembles the URL for the endpoint at `suffix` under the fixed base
/// path, carrying `params` as its query string.
pub fn build_url(suffix: &str, params: &Vec<(String, String)>) -> (r: Result<String, Error>)
    ensures
        (r matches Ok(_)) <==> parse_ok(api_base() + suffix@, pairs_view(params@)),
        r matches Ok(u) ==> u@ == encoded_url(api_base() + suffix@, pairs_view(params@)),
        r matches Err(e) ==> e matches Error::UrlParsing(_),
{
    let mut base = api_base_string();
    base.append(suffix);
    match parse_with_params(base.as_str(), params) {
        Ok(u) => Ok(u),
        Err(m) => Err(Error::UrlParsing(m)),
    }
}

fn push_kv(out: &mut Vec<(String, String)>, k: &'static str, v: String)
    ensures
        pairs_view(final(out)@) == pairs_view(old(out)@).push((k@, v@)),
{
    out.push((k.to_owned(), v));
    proof {
        assert(pairs_view(out@) =~= pairs_view(old(out)@).push((k@, v@)));
    }
}

fn push_settings(out: &mut Vec<(String, String)>, s: &Settings)
    ensures
        pairs_view(final(out)@) == pairs_view(old(out)@) + settings_params(*s),
{
    let mut sv = s.format();
    out.append(&mut sv);
    proof {
        assert(pairs_view(out@) =~= pairs_view(old(out)@) + settings_params(*s));
    }
}

/// The message of the malformed-input error for a day count `len`
/// outside 1 through `max`.
pub open spec fn count_error_msg(max: nat, len: nat) -> Seq<char> {
    "Only support 1 to "@ + dec_digits(max) + " day forecasts but "@ + dec_digits(len)
        + " requested"@
}

fn count_error(max: u64, len: u64) -> (r: Error)
    ensures
        r matches Error::Input { msg } && msg@ == count_error_msg(max as nat, len as nat),
{
    let mut m = "Only support 1 to ".to_owned();
    m.append(u64_to_dec(max).as_str());
    m.append(" day forecasts but ");
    m.append(u64_to_dec(len).as_str());
    m.append(" requested");
    Error::Input { msg: m }
}

/// The query pairs of the current-weather endpoint.
pub open spec fn current_weather_params(l: LocationSpecifier, key: Seq<char>, s: Settings) -> Seq<
    (Seq<char>, Seq<char>),
> {
    location_params(l) + seq![("APPID"@, key)] + settings_params(s)
}

/// The URL asking for the current weather at `location`.
pub fn current_weather_url(location: &LocationSpecifier, key: &str, settings: &Settings) -> (r:
    Result<String, Error>)
    ensures
        (r matches Ok(_)) <==> parse_ok(
            api_base() + "weather"@,
            current_weather_params(*location, key@, *settings),
        ),
        r matches Ok(u) ==> u@ == encoded_url(
            api_base() + "weather"@,
            current_weather_params(*location, key@, *settings),
        ),
        r matches Err(e) ==> e matches Error::UrlParsing(_),
{
    let mut params = location.format();
    push_kv(&mut params, "APPID", key.to_owned());
    push_settings(&mut params, settings);
    proof {
        assert(pairs_view(params@) =~= current_weather_params(*location, key@, *settings));
    }
    build_url("weather", &params)
}

/// The query pairs of the five-day-forecast endpoint.
pub open spec fn five_day_forecast_params(l: LocationSpecifier, key: Seq<char>, s: Settings) -> Seq<
    (Seq<char>, Seq<char>),
> {
    location_params(l) + seq![("APPID"@, key)] + settings_params(s)
}

/// The URL asking for the five-day, three-hourly forecast at `location`.
pub fn five_day_forecast_url(location: &LocationSpecifier, key: &str, settings: &Settings) -> (r:
    Result<String, Error>)
    ensures
        (r matches Ok(_)) <==> parse_ok(
            api_base() + "forecast"@,
            five_day_forecast_params(*location, key@, *settings),
        ),
        r matches Ok(u) ==> u@ == encoded_url(
            api_base() + "forecast"@,
            five_day_forecast_params(*location, key@, *settings),
        ),
        r matches Err(e) ==> e matches Error::UrlParsing(_),
{
    let mut params = location.format();
    push_kv(&mut params, "APPID", key.to_owned());
    push_settings(&mut params, settings);
    proof {
        assert(pairs_view(params@) =~= five_day_forecast_params(*location, key@, *settings));
    }
    build_url("forecast", &params)
}

/// The query pairs of the daily-forecast endpoint for `len` days.
pub open spec fn sixteen_day_forecast_params(
    l: LocationSpecifier,
    len: u8,
    key: Seq<char>,
    s: Settings,
) -> Seq<(Seq<char>, Seq<char>)> {
    location_params(l) + seq![("cnt"@, dec_digits(len as nat)), ("APPID"@, key)]
        + settings_params(s)
}

/// The URL asking for a daily forecast of `len` days at `location`.
/// Counts outside 1 through 16 are rejected before any URL is built,
/// so no request is ever made for them.
pub fn sixteen_day_forecast_url(
    location: &LocationSpecifier,
    key: &str,
    len: u8,
    settings: &Settings,
) -> (r: Result<String, Error>)
    ensures
        len == 0 || len > 16 ==> (r matches Err(e) && e matches Error::Input { msg } && msg@
            == count_error_msg(16, len as nat)),
        1 <= len && len <= 16 ==> ((r matches Ok(_)) <==> parse_ok(
            api_base() + "forecast/daily"@,
            sixteen_day_forecast_params(*location, len, key@, *settings),
        )),
        1 <= len && len <= 16 ==> match r {
            Ok(u) => u@ == encoded_url(
                api_base() + "forecast/daily"@,
                sixteen_day_forecast_params(*location, len, key@, *settings),
            ),
            Err(e) => e matches Error::UrlParsing(_),
        },
{
    if len > 16 || len == 0 {
        return Err(count_error(16, len as u64));
    }
    let mut params = location.format();
    push_kv(&mut params, "cnt", u64_to_dec(len as u64));
    push_kv(&mut params, "APPID", key.to_owned());
    push_settings(&mut params, settings);
    proof {
        assert(pairs_view(params@) =~= sixteen_day_forecast_params(
            *location,
            len,
            key@,
            *settings,
        ));
    }
    build_url("forecast/daily", &params)
}

/// The query pairs of the one-call endpoint, minutely and hourly
/// sections excluded.
pub open spec fn one_call_current_params(c: Coordinates, key: Seq<char>, s: Settings) -> Seq<
    (Seq<char>, Seq<char>),
> {
    settings_params(s) + seq![
        ("lat"@, crate::num::micro_digits(c.lat as int)),
        ("lon"@, crate::num::micro_digits(c.lon as int)),
        ("exclude"@, "minutely,hourly"@),
        ("APPID"@, key),
    ]
}

/// The URL asking for the consolidated current report at `coordinates`.
pub fn one_call_current_url(coordinates: &Coordinates, key: &str, settings: &Settings) -> (r:
    Result<String, Error>)
    ensures
        (r matches Ok(_)) <==> parse_ok(
            api_base() + "onecall"@,
            one_call_current_params(*coordinates, key@, *settings),
        ),
        r matches Ok(u) ==> u@ == encoded_url(
            api_base() + "onecall"@,
            one_call_current_params(*coordinates, key@, *settings),
        ),
        r matches Err(e) ==> e matches Error::UrlParsing(_),
{
    let mut params = settings.format();
    push_kv(&mut params, "lat", crate::num::micro_to_dec(coordinates.lat));
    push_kv(&mut params, "lon", crate::num::micro_to_dec(coordinates.lon));
    push_kv(&mut params, "exclude", "minutely,hourly".to_owned());
    push_kv(&mut params, "APPID", key.to_owned());
    proof {
        assert(pairs_view(params@) =~= one_call_current_params(*coordinates, key@, *settings));
    }
    build_url("onecall", &params)
}

/// The query pairs of the one-call time-machine endpoint at epoch
/// second `dt`.
pub open spec fn one_call_historical_params(c: Coordinates, dt: u64, key: Seq<char>, s: Settings) -> Seq<
    (Seq<char>, Seq<char>),
> {
    settings_params(s) + seq![
        ("lat"@, crate::num::micro_digits(c.lat as int)),
        ("lon"@, crate::num::micro_digits(c.lon as int)),
        ("dt"@, dec_digits(dt as nat)),
        ("APPID"@, key),
    ]
}

/// The URL asking for the consolidated historical report at
/// `coordinates` for epoch second `dt`.
pub fn one_call_historical_url(
    coordinates: &Coordinates,
    dt: u64,
    key: &str,
    settings: &Settings,
) -> (r: Result<String, Error>)
    ensures
        (r matches Ok(_)) <==> parse_ok(
            api_base() + "onecall/timemachine"@,
            one_call_historical_params(*coordinates, dt, key@, *settings),
        ),
        r matches Ok(u) ==> u@ == encoded_url(
            api_base() + "onecall/timemachine"@,
            one_call_historical_params(*coordinates, dt, key@, *settings),
        ),
        r matches Err(e) ==> e matches Error::UrlParsing(_),
{
    let mut params = settings.format();
    push_kv(&mut params, "lat", crate::num::micro_to_dec(coordinates.lat));
    push_kv(&mut params, "lon", crate::num::micro_to_dec(coordinates.lon));
    push_kv(&mut params, "dt", u64_to_dec(dt));
    push_kv(&mut params, "APPID", key.to_owned());
    proof {
        assert(pairs_view(params@) =~= one_call_historical_params(
            *coordinates,
            dt,
            key@,
            *settings,
        ));
    }
    build_url("onecall/timemachine", &params)
}

/// The query pairs of the historical city-data endpoint over the
/// epoch-second range `start` through `end`.
pub open spec fn historical_data_params(
    l: LocationSpecifier,
    start: i64,
    end: i64,
    key: Seq<char>,
    s: Settings,
) -> Seq<(Seq<char>, Seq<char>)> {
    location_params(l) + seq![
        ("type"@, "hour"@),
        ("start"@, signed_digits(start as int)),
        ("end"@, signed_digits(end as int)),
        ("APPID"@, key),
    ] + settings_params(s)
}

/// The URL asking for hourly historical data at `location` between the
/// epoch seconds `start` and `end`.
pub fn historical_data_url(
    location: &LocationSpecifier,
    key: &str,
    start: i64,
    end: i64,
    settings: &Settings,
) -> (r: Result<String, Error>)
    ensures
        (r matches Ok(_)) <==> parse_ok(
            api_base() + "history/city"@,
            historical_data_params(*location, start, end, key@, *settings),
        ),
        r matches Ok(u) ==> u@ == encoded_url(
            api_base() + "history/city"@,
            historical_data_params(*location, start, end, key@, *settings),
        ),
        r matches Err(e) ==> e matches Error::UrlParsing(_),
{
    let mut params = location.format();
    push_kv(&mut params, "type", "hour".to_owned());
    push_kv(&mut params, "start", i64_to_dec(start));
    push_kv(&mut params, "end", i64_to_dec(end));
    push_kv(&mut params, "APPID", key.to_owned());
    push_settings(&mut params, settings);
    proof {
        assert(pairs_view(params@) =~= historical_data_params(
            *location,
            start,
            end,
            key@,
            *settings,
        ));
    }
    build_url("history/city", &params)
}

/// The query pairs of an accumulated-measurement endpoint: the hourly
/// range `start` through `end` and the accumulation `threshold`.
pub open spec fn accumulated_params(
    l: LocationSpecifier,
    start: i64,
    end: i64,
    threshold: u32,
    key: Seq<char>,
    s: Settings,
) -> Seq<(Seq<char>, Seq<char>)> {
    location_params(l) + seq![
        ("type"@, "hour"@),
        ("start"@, signed_digits(start as int)),
        ("end"@, signed_digits(end as int)),
        ("threshold"@, dec_digits(threshold as nat)),
        ("APPID"@, key),
    ] + settings_params(s)
}

fn accumulated_query(
    location: &LocationSpecifier,
    key: &str,
    start: i64,
    end: i64,
    threshold: u32,
    settings: &Settings,
) -> (r: Vec<(String, String)>)
    ensures
        pairs_view(r@) == accumulated_params(*location, start, end, threshold, key@, *settings),
{
    let mut params = location.format();
    push_kv(&mut params, "type", "hour".to_owned());
    push_kv(&mut params, "start", i64_to_dec(start));
    push_kv(&mut params, "end", i64_to_dec(end));
    push_kv(&mut params, "threshold", u64_to_dec(threshold as u64));
    push_kv(&mut params, "APPID", key.to_owned());
    push_settings(&mut params, settings);
    proof {
        assert(pairs_view(params@) =~= accumulated_params(
            *location,
            start,
            end,
            threshold,
            key@,
            *settings,
        ));
    }
    params
}

/// The URL asking for accumulated temperature at `location` between
/// the epoch seconds `start` and `end`, above `threshold`.
pub fn accumulated_temperature_url(
    location: &LocationSpecifier,
    key: &str,
    start: i64,
    end: i64,
    threshold: u32,
    settings: &Settings,
) -> (r: Result<String, Error>)
    ensures
        (r matches Ok(_)) <==> parse_ok(
            api_base() + "history/accumulated_temperature"@,
            accumulated_params(*location, start, end, threshold, key@, *settings),
        ),
        r matches Ok(u) ==> u@ == encoded_url(
            api_base() + "history/accumulated_temperature"@,
            accumulated_params(*location, start, end, threshold, key@, *settings),
        ),
        r matches Err(e) ==> e matches Error::UrlParsing(_),
{
    let params = accumulated_query(location, key, start, end, threshold, settings);
    build_url("history/accumulated_temperature", &params)
}

/// The URL asking for accumulated precipitation at `location` between
/// the epoch seconds `start` and `end`, above `threshold`.
pub fn accumulated_precipitation_url(
    location: &LocationSpecifier,
    key: &str,
    start: i64,
    end: i64,
    threshold: u32,
    settings: &Settings,
) -> (r: Result<String, Error>)
    ensures
        (r matches Ok(_)) <==> parse_ok(
            api_base() + "history/accumulated_precipitation"@,
            accumulated_params(*location, start, end, threshold, key@, *settings),
        ),
        r matches Ok(u) ==> u@ == encoded_url(
            api_base() + "history/accumulated_precipitation"@,
            accumulated_params(*location, start, end, threshold, key@, *settings),
        ),
        r matches Err(e) ==> e matches Error::UrlParsing(_),
{
    let params = accumulated_query(location, key, start, end, threshold, settings);
    build_url("history/accumulated_precipitation", &params)
}

/// The query pairs of the current-UV-index endpoint.
pub open spec fn current_uv_index_params(l: LocationSpecifier, key: Seq<char>, s: Settings) -> Seq<
    (Seq<char>, Seq<char>),
> {
    location_params(l) + seq![("APPID"@, key)] + settings_params(s)
}

/// The URL asking for the current UV index at `location`.
pub fn current_uv_index_url(location: &LocationSpecifier, key: &str, settings: &Settings) -> (r:
    Result<String, Error>)
    ensures
        (r matches Ok(_)) <==> parse_ok(
            api_base() + "uvi"@,
            current_uv_index_params(*location, key@, *settings),
        ),
        r matches Ok(u) ==> u@ == encoded_url(
            api_base() + "uvi"@,
            current_uv_index_params(*location, key@, *settings),
        ),
        r matches Err(e) ==> e matches Error::UrlParsing(_),
{
    let mut params = location.format();
    push_kv(&mut params, "APPID", key.to_owned());
    push_settings(&mut params, settings);
    proof {
        assert(pairs_view(params@) =~= current_uv_index_params(*location, key@, *settings));
    }
    build_url("uvi", &params)
}

/// The query pairs of the UV-forecast endpoint for `len` days.
pub open spec fn forecast_uv_index_params(
    l: LocationSpecifier,
    len: u8,
    key: Seq<char>,
    s: Settings,
) -> Seq<(Seq<char>, Seq<char>)> {
    location_params(l) + seq![("cnt"@, dec_digits(len as nat)), ("APPID"@, key)]
        + settings_params(s)
}

/// The URL asking for a UV-index forecast of `len` days at `location`.
/// Counts outside 1 through 8 are rejected before any URL is built,
/// so no request is ever made for them.
pub fn forecast_uv_index_url(
    location: &LocationSpecifier,
    key: &str,
    len: u8,
    settings: &Settings,
) -> (r: Result<String, Error>)
    ensures
        len == 0 || len > 8 ==> (r matches Err(e) && e matches Error::Input { msg } && msg@
            == count_error_msg(8, len as nat)),
        1 <= len && len <= 8 ==> ((r matches Ok(_)) <==> parse_ok(
            api_base() + "uvi/forecast"@,
            forecast_uv_index_params(*location, len, key@, *settings),
        )),
        1 <= len && len <= 8 ==> match r {
            Ok(u) => u@ == encoded_url(
                api_base() + "uvi/forecast"@,
                forecast_uv_index_params(*location, len, key@, *settings),
            ),
            Err(e) => e matches Error::UrlParsing(_),
        },
{
    if len > 8 || len == 0 {
        return Err(count_error(8, len as u64));
    }
    let mut params = location.format();
    push_kv(&mut params, "cnt", u64_to_dec(len as u64));
    push_kv(&mut params, "APPID", key.to_owned());
    push_settings(&mut params, settings);
    proof {
        assert(pairs_view(params@) =~= forecast_uv_index_params(*location, len, key@, *settings));
    }
    build_url("uvi/forecast", &params)
}

/// The query pairs of the historical-UV-index endpoint over the
/// epoch-second range `start` through `end`.
pub open spec fn historical_uv_index_params(
    l: LocationSpecifier,
    start: i64,
    end: i64,
    key: Seq<char>,
    s: Settings,
) -> Seq<(Seq<char>, Seq<char>)> {
    location_params(l) + seq![
        ("start"@, signed_digits(start as int)),
        ("end"@, signed_digits(end as int)),
        ("APPID"@, key),
    ] + settings_params(s)
}

/// The URL asking for historical UV indices at `location` between the
/// epoch seconds `start` and `end`.
pub fn historical_uv_index_url(
    location: &LocationSpecifier,
    key: &str,
    start: i64,
    end: i64,
    settings: &Settings,
) -> (r: Result<String, Error>)
    ensures
        (r matches Ok(_)) <==> parse_ok(
            api_base() + "uvi/history"@,
            historical_uv_index_params(*location, start, end, key@, *settings),
        ),
        r matches Ok(u) ==> u@ == encoded_url(
            api_base() + "uvi/history"@,
            historical_uv_index_params(*location, start, end, key@, *settings),
        ),
        r matches Err(e) ==> e matches Error::UrlParsing(_),
{
    let mut params = location.format();
    push_kv(&mut params, "start", i64_to_dec(start));
    push_kv(&mut params, "end", i64_to_dec(end));
    push_kv(&mut params, "APPID", key.to_owned());
    push_settings(&mut params, settings);
    proof {
        assert(pairs_view(params@) =~= historical_uv_index_params(
            *location,
            start,
            end,
            key@,
            *settings,
        ));
    }
    build_url("uvi/history", &params)
}

} // verus!

use openweather_client::num::{i64_to_dec, micro_to_dec, u64_to_dec};
use openweather_client::query::{
    accumulated_precipitation_url, accumulated_temperature_url, current_uv_index_url,
    current_weather_url,
    five_day_forecast_url, forecast_uv_index_url, historical_data_url, historical_uv_index_url,
    one_call_current_url, one_call_historical_url, sixteen_day_forecast_url,
};
use openweather_client::{Coordinates, Error, Language, LocationSpecifier, Settings, Unit};

fn minneapolis() -> LocationSpecifier {
    LocationSpecifier::CityAndCountryName {
        city: "Minneapolis".to_string(),
        country: "USA".to_string(),
    }
}

fn plain() -> Settings {
    Settings { unit: None, lang: None }
}

#[test]
fn decimal_rendering() {
    assert_eq!(u64_to_dec(0).as_str(), "0");
    assert_eq!(u64_to_dec(7).as_str(), "7");
    assert_eq!(u64_to_dec(1234567890).as_str(), "1234567890");
    assert_eq!(u64_to_dec(u64::MAX).as_str(), "18446744073709551615");
    assert_eq!(i64_to_dec(-5).as_str(), "-5");
    assert_eq!(i64_to_dec(0).as_str(), "0");
    assert_eq!(i64_to_dec(i64::MIN).as_str(), "-9223372036854775808");
}

#[test]
fn microdegree_rendering() {
    assert_eq!(micro_to_dec(37650470).as_str(), "37.650470");
    assert_eq!(micro_to_dec(-119037439).as_str(), "-119.037439");
    assert_eq!(micro_to_dec(0).as_str(), "0.000000");
    assert_eq!(micro_to_dec(-1).as_str(), "-0.000001");
    assert_eq!(micro_to_dec(1000000).as_str(), "1.000000");
}

#[test]
fn settings_pairs() {
    let s = Settings { unit: Some(Unit::Metric), lang: Some(Language::English) };
    let pairs = s.format();
    assert_eq!(pairs.len(), 2);
    assert_eq!(pairs[0].0.as_str(), "units");
    assert_eq!(pairs[0].1.as_str(), "metric");
    assert_eq!(pairs[1].0.as_str(), "lang");
    assert_eq!(pairs[1].1.as_str(), "en");
    assert!(plain().format().is_empty());
}

#[test]
fn location_pairs() {
    let pairs = minneapolis().format();
    assert_eq!(pairs.len(), 1);
    assert_eq!(pairs[0].0.as_str(), "q");
    assert_eq!(pairs[0].1.as_str(), "Minneapolis,USA");

    let coords = LocationSpecifier::Coord {
        coordinates: Coordinates { lat: 37650470, lon: -119037439 },
    };
    let pairs = coords.format();
    assert_eq!(pairs.len(), 2);
    assert_eq!(pairs[0].0.as_str(), "lat");
    assert_eq!(pairs[0].1.as_str(), "37.650470");
    assert_eq!(pairs[1].0.as_str(), "lon");
    assert_eq!(pairs[1].1.as_str(), "-119.037439");

    let id = LocationSpecifier::CityId { id: 5037649 };
    let pairs = id.format();
    assert_eq!(pairs[0].0.as_str(), "id");
    assert_eq!(pairs[0].1.as_str(), "5037649");
}

#[test]
fn city_country_url_has_city_country_and_one_key() {
    let url = current_weather_url(&minneapolis(), "abc123", &plain()).unwrap();
    assert_eq!(
        url.as_str(),
        "https://api.openweathermap.org/data/2.5/weather?q=Minneapolis%2CUSA&APPID=abc123"
    );
    assert!(url.contains("Minneapolis"));
    assert!(url.contains("USA"));
    assert_eq!(url.matches("APPID").count(), 1);
    assert_eq!(url.matches("abc123").count(), 1);
}

#[test]
fn five_day_forecast_url_shape() {
    let s = Settings { unit: Some(Unit::Imperial), lang: None };
    let url = five_day_forecast_url(&minneapolis(), "k", &s).unwrap();
    assert_eq!(
        url.as_str(),
        "https://api.openweathermap.org/data/2.5/forecast?q=Minneapolis%2CUSA&APPID=k&units=imperial"
    );
}

#[test]
fn sixteen_day_count_limits() {
    let r = sixteen_day_forecast_url(&minneapolis(), "k", 17, &plain());
    match r {
        Err(Error::Input { msg }) => {
            assert_eq!(msg.as_str(), "Only support 1 to 16 day forecasts but 17 requested");
            assert!(msg.contains("16"));
        }
        other => panic!("expected an input error, got {:?}", other),
    }
    let r = sixteen_day_forecast_url(&minneapolis(), "k", 0, &plain());
    match r {
        Err(Error::Input { msg }) => {
            assert_eq!(msg.as_str(), "Only support 1 to 16 day forecasts but 0 requested");
        }
        other => panic!("expected an input error, got {:?}", other),
    }
}

#[test]
fn sixteen_day_valid_count_url() {
    let s = Settings { unit: Some(Unit::Metric), lang: None };
    let url = sixteen_day_forecast_url(&minneapolis(), "k", 16, &s).unwrap();
    assert_eq!(
        url.as_str(),
        "https://api.openweathermap.org/data/2.5/forecast/daily?q=Minneapolis%2CUSA&cnt=16&APPID=k&units=metric"
    );
}

#[test]
fn uv_forecast_count_limits() {
    let r = forecast_uv_index_url(&minneapolis(), "k", 9, &plain());
    match r {
        Err(Error::Input { msg }) => {
            assert_eq!(msg.as_str(), "Only support 1 to 8 day forecasts but 9 requested");
            assert!(msg.contains("8"));
        }
        other => panic!("expected an input error, got {:?}", other),
    }
    let r = forecast_uv_index_url(&minneapolis(), "k", 0, &plain());
    assert!(matches!(r, Err(Error::Input { .. })));
    let url = forecast_uv_index_url(&minneapolis(), "k", 8, &plain()).unwrap();
    assert_eq!(
        url.as_str(),
        "https://api.openweathermap.org/data/2.5/uvi/forecast?q=Minneapolis%2CUSA&cnt=8&APPID=k"
    );
}

#[test]
fn one_call_urls() {
    let coords = Coordinates { lat: 37650470, lon: -119037439 };
    let url = one_call_current_url(&coords, "k", &plain()).unwrap();
    assert_eq!(
        url.as_str(),
        "https://api.openweathermap.org/data/2.5/onecall?lat=37.650470&lon=-119.037439&exclude=minutely%2Chourly&APPID=k"
    );
    let url = one_call_historical_url(&coords, 1569000000, "k", &plain()).unwrap();
    assert_eq!(
        url.as_str(),
        "https://api.openweathermap.org/data/2.5/onecall/timemachine?lat=37.650470&lon=-119.037439&dt=1569000000&APPID=k"
    );
}

#[test]
fn ranged_urls() {
    let url = historical_data_url(&minneapolis(), "k", 1569000000, 1569086400, &plain()).unwrap();
    assert_eq!(
        url.as_str(),
        "https://api.openweathermap.org/data/2.5/history/city?q=Minneapolis%2CUSA&type=hour&start=1569000000&end=1569086400&APPID=k"
    );
    let url =
        accumulated_temperature_url(&minneapolis(), "k", 1569000000, 1569086400, 284, &plain())
            .unwrap();
    assert_eq!(
        url.as_str(),
        "https://api.openweathermap.org/data/2.5/history/accumulated_temperature?q=Minneapolis%2CUSA&type=hour&start=1569000000&end=1569086400&threshold=284&APPID=k"
    );
    let url =
        accumulated_precipitation_url(&minneapolis(), "k", 1569000000, 1569086400, 5, &plain())
            .unwrap();
    assert_eq!(
        url.as_str(),
        "https://api.openweathermap.org/data/2.5/history/accumulated_precipitation?q=Minneapolis%2CUSA&type=hour&start=1569000000&end=1569086400&threshold=5&APPID=k"
    );
    let url = historical_uv_index_url(&minneapolis(), "k", 1569000000, 1569086400, &plain())
        .unwrap();
    assert_eq!(
        url.as_str(),
        "https://api.openweathermap.org/data/2.5/uvi/history?q=Minneapolis%2CUSA&start=1569000000&end=1569086400&APPID=k"
    );
}

#[test]
fn current_uv_url_shape() {
    let url = current_uv_index_url(&minneapolis(), "k", &plain()).unwrap();
    assert_eq!(
        url.as_str(),
        "https://api.openweathermap.org/data/2.5/uvi?q=Minneapolis%2CUSA&APPID=k"
    );
}

//! Properties of the query construction that hold across endpoints:
//! the API-key field appears in exactly one pair of every query, and a
//! city-and-country location contributes its city and country text.

use vstd::prelude::*;
use crate::params::{location_params, settings_params, LocationSpecifier, Settings};
use crate::query::{
    accumulated_params, current_uv_index_params, current_weather_params, five_day_forecast_params,
    forecast_uv_index_params, historical_data_params, historical_uv_index_params,
    one_call_current_params, one_call_historical_params, sixteen_day_forecast_params,
};

verus! {

/// How many pairs of `ps` carry the query key `k`.
pub open spec fn count_key(ps: Seq<(Seq<char>, Seq<char>)>, k: Seq<char>) -> nat
    decreases ps.len(),
{
    if ps.len() == 0 {
        0
    } else {
        (if ps[0].0 == k {
            1nat
        } else {
            0nat
        }) + count_key(ps.drop_first(), k)
    }
}

proof fn lemma_count_key_one(p: (Seq<char>, Seq<char>), k: Seq<char>)
    ensures
        count_key(seq![p], k) == (if p.0 == k {
            1nat
        } else {
            0nat
        }),
{
    assert(count_key(Seq::<(Seq<char>, Seq<char>)>::empty(), k) == 0);
    assert(seq![p].drop_first() =~= Seq::<(Seq<char>, Seq<char>)>::empty());
    assert(seq![p][0] == p);
}

proof fn lemma_count_key_concat(
    a: Seq<(Seq<char>, Seq<char>)>,
    b: Seq<(Seq<char>, Seq<char>)>,
    k: Seq<char>,
)
    ensures
        count_key(a + b, k) == count_key(a, k) + count_key(b, k),
    decreases a.len(),
{
    if a.len() == 0 {
        assert(a + b =~= b);
    } else {
        lemma_count_key_concat(a.drop_first(), b, k);
        assert((a + b).drop_first() =~= a.drop_first() + b);
        assert((a + b)[0] == a[0]);
    }
}

/// A sequence whose last pair is the API-key pair, and whose other
/// pairs all carry other keys, holds the key field exactly once.
proof fn lemma_mid_one_appid(mid: Seq<(Seq<char>, Seq<char>)>, key: Seq<char>)
    requires
        mid.len() >= 1,
        mid[mid.len() - 1] == ("APPID"@, key),
        forall|i: int| 0 <= i < mid.len() - 1 ==> #[trigger] mid[i].0 != "APPID"@,
    ensures
        count_key(mid, "APPID"@) == 1,
    decreases mid.len(),
{
    if mid.len() == 1 {
        assert(mid =~= seq![mid[0]]);
        lemma_count_key_one(mid[0], "APPID"@);
    } else {
        lemma_mid_one_appid(mid.drop_first(), key);
    }
}

proof fn lemma_location_no_appid(l: LocationSpecifier)
    ensures
        count_key(location_params(l), "APPID"@) == 0,
{
    reveal_strlit("APPID");
    assert("APPID"@.len() == 5);
    match l {
        LocationSpecifier::CityName { city } => {
            let p = ("q"@, city@);
            assert(p.0 != "APPID"@) by {
                reveal_strlit("q");
                assert("q"@.len() == 1);
            }
            assert(location_params(l) == seq![p]);
            lemma_count_key_one(p, "APPID"@);
        },
        LocationSpecifier::CityAndCountryName { city, country } => {
            let p = ("q"@, city@ + ","@ + country@);
            assert(p.0 != "APPID"@) by {
                reveal_strlit("q");
                assert("q"@.len() == 1);
            }
            assert(location_params(l) == seq![p]);
            lemma_count_key_one(p, "APPID"@);
        },
        LocationSpecifier::CityId { id } => {
            let p = ("id"@, crate::num::dec_digits(id as nat));
            assert(p.0 != "APPID"@) by {
                reveal_strlit("id");
                assert("id"@.len() == 2);
            }
            assert(location_params(l) == seq![p]);
            lemma_count_key_one(p, "APPID"@);
        },
        LocationSpecifier::Coord { coordinates } => {
            let p0 = ("lat"@, crate::num::micro_digits(coordinates.lat as int));
            let p1 = ("lon"@, crate::num::micro_digits(coordinates.lon as int));
            assert(p0.0 != "APPID"@ && p1.0 != "APPID"@) by {
                reveal_strlit("lat");
                reveal_strlit("lon");
                assert("lat"@.len() == 3 && "lon"@.len() == 3);
            }
            assert(location_params(l) == seq![p0, p1]);
            assert(seq![p0, p1] =~= seq![p0] + seq![p1]);
            lemma_count_key_concat(seq![p0], seq![p1], "APPID"@);
            lemma_count_key_one(p0, "APPID"@);
            lemma_count_key_one(p1, "APPID"@);
        },
        LocationSpecifier::ZipCode { zip, country } => {
            let p = ("zip"@, zip@ + ","@ + country@);
            assert(p.0 != "APPID"@) by {
                reveal_strlit("zip");
                assert("zip"@.len() == 3);
            }
            assert(location_params(l) == seq![p]);
            lemma_count_key_one(p, "APPID"@);
        },
    }
}

proof fn lemma_settings_no_appid(s: Settings)
    ensures
        count_key(settings_params(s), "APPID"@) == 0,
{
    reveal_strlit("APPID");
    assert("APPID"@.len() == 5);
    let u = match s.unit {
        Some(un) => seq![("units"@, crate::params::unit_value(un))],
        None => Seq::<(Seq<char>, Seq<char>)>::empty(),
    };
    let g = match s.lang {
        Some(la) => seq![("lang"@, crate::params::language_code(la))],
        None => Seq::<(Seq<char>, Seq<char>)>::empty(),
    };
    assert(settings_params(s) == u + g);
    lemma_count_key_concat(u, g, "APPID"@);
    assert("units"@ != "APPID"@) by {
        reveal_strlit("units");
        reveal_strlit("APPID");
        assert("units"@[0] == 'u' && "APPID"@[0] == 'A');
    }
    assert("lang"@ != "APPID"@) by {
        reveal_strlit("lang");
        assert("lang"@.len() == 4);
    }
    match s.unit {
        Some(un) => {
            lemma_count_key_one(("units"@, crate::params::unit_value(un)), "APPID"@);
        },
        None => {},
    }
    match s.lang {
        Some(la) => {
            lemma_count_key_one(("lang"@, crate::params::language_code(la)), "APPID"@);
        },
        None => {},
    }
}

/// Queries of the plain location endpoints (current weather, five-day
/// forecast, current UV index) carry the key field `APPID` in exactly
/// one pair, whatever the location and settings; and a city-and-country
/// location contributes exactly one pair, carrying the city and the
/// country, comma-separated.
pub proof fn lemma_api_key_once_plain(l: LocationSpecifier, key: Seq<char>, s: Settings)
    ensures
        count_key(current_weather_params(l, key, s), "APPID"@) == 1,
        count_key(five_day_forecast_params(l, key, s), "APPID"@) == 1,
        count_key(current_uv_index_params(l, key, s), "APPID"@) == 1,
        l matches LocationSpecifier::CityAndCountryName { city, country } ==> location_params(l)
            == seq![("q"@, city@ + ","@ + country@)],
{
    lemma_location_no_appid(l);
    lemma_settings_no_appid(s);
    let mid = seq![("APPID"@, key)];
    lemma_mid_one_appid(mid, key);
    lemma_count_key_concat(location_params(l), mid, "APPID"@);
    lemma_count_key_concat(location_params(l) + mid, settings_params(s), "APPID"@);
}

/// Queries of the day-counted endpoints (daily forecast, UV forecast)
/// carry the key field `APPID` in exactly one pair.
pub proof fn lemma_api_key_once_counted(l: LocationSpecifier, len: u8, key: Seq<char>, s: Settings)
    ensures
        count_key(sixteen_day_forecast_params(l, len, key, s), "APPID"@) == 1,
        count_key(forecast_uv_index_params(l, len, key, s), "APPID"@) == 1,
{
    lemma_location_no_appid(l);
    lemma_settings_no_appid(s);
    assert("cnt"@ != "APPID"@) by {
        reveal_strlit("cnt");
        reveal_strlit("APPID");
        assert("cnt"@.len() == 3 && "APPID"@.len() == 5);
    }
    let mid = seq![("cnt"@, crate::num::dec_digits(len as nat)), ("APPID"@, key)];
    lemma_mid_one_appid(mid, key);
    lemma_count_key_concat(location_params(l), mid, "APPID"@);
    lemma_count_key_concat(location_params(l) + mid, settings_params(s), "APPID"@);
}

/// Queries of the two one-call endpoints carry the key field `APPID`
/// in exactly one pair.
pub proof fn lemma_api_key_once_one_call(
    c: crate::params::Coordinates,
    dt: u64,
    key: Seq<char>,
    s: Settings,
)
    ensures
        count_key(one_call_current_params(c, key, s), "APPID"@) == 1,
        count_key(one_call_historical_params(c, dt, key, s), "APPID"@) == 1,
{
    lemma_settings_no_appid(s);
    assert("lat"@ != "APPID"@ && "lon"@ != "APPID"@ && "exclude"@ != "APPID"@ && "dt"@
        != "APPID"@) by {
        reveal_strlit("lat");
        reveal_strlit("lon");
        reveal_strlit("exclude");
        reveal_strlit("dt");
        reveal_strlit("APPID");
        assert("lat"@.len() == 3 && "lon"@.len() == 3 && "exclude"@.len() == 7 && "dt"@.len() == 2
            && "APPID"@.len() == 5);
    }
    let oc = seq![
        ("lat"@, crate::num::micro_digits(c.lat as int)),
        ("lon"@, crate::num::micro_digits(c.lon as int)),
        ("exclude"@, "minutely,hourly"@),
        ("APPID"@, key),
    ];
    lemma_mid_one_appid(oc, key);
    lemma_count_key_concat(settings_params(s), oc, "APPID"@);
    let oh = seq![
        ("lat"@, crate::num::micro_digits(c.lat as int)),
        ("lon"@, crate::num::micro_digits(c.lon as int)),
        ("dt"@, crate::num::dec_digits(dt as nat)),
        ("APPID"@, key),
    ];
    lemma_mid_one_appid(oh, key);
    lemma_count_key_concat(settings_params(s), oh, "APPID"@);
}

/// Queries of the ranged endpoints (historical city data, accumulated
/// temperature and precipitation, historical UV index) carry the key
/// field `APPID` in exactly one pair.
pub proof fn lemma_api_key_once_ranged(
    l: LocationSpecifier,
    start: i64,
    end: i64,
    threshold: u32,
    key: Seq<char>,
    s: Settings,
)
    ensures
        count_key(historical_data_params(l, start, end, key, s), "APPID"@) == 1,
        count_key(accumulated_params(l, start, end, threshold, key, s), "APPID"@) == 1,
        count_key(historical_uv_index_params(l, start, end, key, s), "APPID"@) == 1,
{
    lemma_location_no_appid(l);
    lemma_settings_no_appid(s);
    assert("type"@ != "APPID"@ && "start"@ != "APPID"@ && "end"@ != "APPID"@ && "threshold"@
        != "APPID"@) by {
        reveal_strlit("type");
        reveal_strlit("start");
        reveal_strlit("end");
        reveal_strlit("threshold");
        reveal_strlit("APPID");
        assert("type"@.len() == 4 && "end"@.len() == 3 && "threshold"@.len() == 9);
        assert("start"@[0] == 's' && "APPID"@[0] == 'A');
    }
    let hist = seq![
        ("type"@, "hour"@),
        ("start"@, crate::num::signed_digits(start as int)),
        ("end"@, crate::num::signed_digits(end as int)),
        ("APPID"@, key),
    ];
    lemma_mid_one_appid(hist, key);
    lemma_count_key_concat(location_params(l), hist, "APPID"@);
    lemma_count_key_concat(location_params(l) + hist, settings_params(s), "APPID"@);
    let acc = seq![
        ("type"@, "hour"@),
        ("start"@, crate::num::signed_digits(start as int)),
        ("end"@, crate::num::signed_digits(end as int)),
        ("threshold"@, crate::num::dec_digits(threshold as nat)),
        ("APPID"@, key),
    ];
    lemma_mid_one_appid(acc, key);
    lemma_count_key_concat(location_params(l), acc, "APPID"@);
    lemma_count_key_concat(location_params(l) + acc, settings_params(s), "APPID"@);
    let uvh = seq![
        ("start"@, crate::num::signed_digits(start as int)),
        ("end"@, crate::num::signed_digits(end as int)),
        ("APPID"@, key),
    ];
    lemma_mid_one_appid(uvh, key);
    lemma_count_key_concat(location_params(l), uvh, "APPID"@);
    lemma_count_key_concat(location_params(l) + uvh, settings_params(s), "APPID"@);
}

} // verus!

//! The typed request parameters: unit system, language, location
//! specifier, and coordinates, each with its rendering into query
//! key/value pairs.

use vstd::prelude::*;
use vstd::string::StringExecFns;
use crate::num::{dec_digits, micro_digits, u64_to_dec, micro_to_dec};

verus! {

/// The sequence of key/value pairs a parameter vector denotes,
/// with every string taken to its character sequence.
pub open spec fn pairs_view(v: Seq<(String, String)>) -> Seq<(Seq<char>, Seq<char>)> {
    v.map(|i: int, p: (String, String)| (p.0@, p.1@))
}

/// The unit system a report should use; absence means the API default.
#[derive(Debug, Clone, Copy, PartialEq, Eq, Structural)]
pub enum Unit {
    Metric,
    Imperial,
    Standard,
}

/// The query value the API expects for a unit system.
pub open spec fn unit_value(u: Unit) -> Seq<char> {
    match u {
        Unit::Metric => "metric"@,
        Unit::Imperial => "imperial"@,
        Unit::Standard => "standard"@,
    }
}

impl Unit {
    /// The query value naming this unit system.
    pub fn query_value(&self) -> (r: &'static str)
        ensures
            r@ == unit_value(*self),
    {
        match self {
            Unit::Metric => "metric",
            Unit::Imperial => "imperial",
            Unit::Standard => "standard",
        }
    }
}

/// The language a report's free-text fields should use; absence means
/// the API default.
#[derive(Debug, Clone, Copy, PartialEq, Eq, Structural)]
pub enum Language {
    English,
    French,
    German,
    Spanish,
    Italian,
    Portuguese,
    Dutch,
    Russian,
    Japanese,
    ChineseSimplified,
    ChineseTraditional,
    Arabic,
}

/// The two-letter (or regioned) code the API expects for a language.
pub open spec fn language_code(l: Language) -> Seq<char> {
    match l {
        Language::English => "en"@,
        Language::French => "fr"@,
        Language::German => "de"@,
        Language::Spanish => "es"@,
        Language::Italian => "it"@,
        Language::Portuguese => "pt"@,
        Language::Dutch => "nl"@,
        Language::Russian => "ru"@,
        Language::Japanese => "ja"@,
        Language::ChineseSimplified => "zh_cn"@,
        Language::ChineseTraditional => "zh_tw"@,
        Language::Arabic => "ar"@,
    }
}

impl Language {
    /// The query value naming this language.
    pub fn query_value(&self) -> (r: &'static str)
        ensures
            r@ == language_code(*self),
    {
        match self {
            Language::English => "en",
            Language::French => "fr",
            Language::German => "de",
            Language::Spanish => "es",
            Language::Italian => "it",
            Language::Portuguese => "pt",
            Language::Dutch => "nl",
            Language::Russian => "ru",
            Language::Japanese => "ja",
            Language::ChineseSimplified => "zh_cn",
            Language::ChineseTraditional => "zh_tw",
            Language::Arabic => "ar",
        }
    }
}

/// Optional request-wide settings; each `None` leaves the API default
/// in force and contributes no query parameter.
#[derive(Debug, Clone)]
pub struct Settings {
    pub unit: Option<Unit>,
    pub lang: Option<Language>,
}

/// The query pairs a settings value contributes: a `units` pair when a
/// unit system is chosen, then a `lang` pair when a language is chosen.
pub open spec fn settings_params(s: Settings) -> Seq<(Seq<char>, Seq<char>)> {
    (match s.unit {
        Some(u) => seq![("units"@, unit_value(u))],
        None => Seq::<(Seq<char>, Seq<char>)>::empty(),
    }) + (match s.lang {
        Some(l) => seq![("lang"@, language_code(l))],
        None => Seq::<(Seq<char>, Seq<char>)>::empty(),
    })
}

impl Settings {
    /// Renders these settings as query pairs.
    pub fn format(&self) -> (r: Vec<(String, String)>)
        ensures
            pairs_view(r@) == settings_params(*self),
    {
        let mut out: Vec<(String, String)> = Vec::new();
        match &self.unit {
            Some(u) => {
                out.push(("units".to_owned(), u.query_value().to_owned()));
            },
            None => {},
        }
        match &self.lang {
            Some(l) => {
                out.push(("lang".to_owned(), l.query_value().to_owned()));
            },
            None => {},
        }
        proof {
            assert(pairs_view(out@) =~= settings_params(*self));
        }
        out
    }
}

/// A coordinate pair, each axis held in microdegrees: one unit is a
/// millionth of a degree, so a whole coordinate of 37.650470 degrees
/// is stored as 37650470.
#[derive(Debug, Clone, Copy)]
pub struct Coordinates {
    pub lat: i64,
    pub lon: i64,
}

/// The closed set of ways the API accepts to identify a place.
#[derive(Debug, Clone)]
pub enum LocationSpecifier {
    CityName { city: String },
    CityAndCountryName { city: String, country: String },
    CityId { id: u64 },
    Coord { coordinates: Coordinates },
    ZipCode { zip: String, country: String },
}

/// The query pairs a location specifier contributes.
pub open spec fn location_params(l: LocationSpecifier) -> Seq<(Seq<char>, Seq<char>)> {
    match l {
        LocationSpecifier::CityName { city } => seq![("q"@, city@)],
        LocationSpecifier::CityAndCountryName { city, country } => seq![
            ("q"@, city@ + ","@ + country@),
        ],
        LocationSpecifier::CityId { id } => seq![("id"@, dec_digits(id as nat))],
        LocationSpecifier::Coord { coordinates } => seq![
            ("lat"@, micro_digits(coordinates.lat as int)),
            ("lon"@, micro_digits(coordinates.lon as int)),
        ],
        LocationSpecifier::ZipCode { zip, country } => seq![("zip"@, zip@ + ","@ + country@)],
    }
}

impl LocationSpecifier {
    /// Renders this location as query pairs.
    pub fn format(&self) -> (r: Vec<(String, String)>)
        ensures
            pairs_view(r@) == location_params(*self),
    {
        let mut out: Vec<(String, String)> = Vec::new();
        match self {
            LocationSpecifier::CityName { city } => {
                out.push(("q".to_owned(), city.clone()));
            },
            LocationSpecifier::CityAndCountryName { city, country } => {
                let mut v = city.clone();
                v.append(",");
                v.append(country.as_str());
                out.push(("q".to_owned(), v));
            },
            LocationSpecifier::CityId { id } => {
                out.push(("id".to_owned(), u64_to_dec(*id)));
            },
            LocationSpecifier::Coord { coordinates } => {
                out.push(("lat".to_owned(), micro_to_dec(coordinates.lat)));
                out.push(("lon".to_owned(), micro_to_dec(coordinates.lon)));
            },
            LocationSpecifier::ZipCode { zip, country } => {
                let mut v = zip.clone();
                v.append(",");
                v.append(country.as_str());
                out.push(("zip".to_owned(), v));
            },
        }
        proof {
            assert(pairs_view(out@) =~= location_params(*self));
        }
        out
    }
}

} // verus!

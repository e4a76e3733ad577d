//! Client-side request building and response classification for a
//! weather-data REST API.
//!
//! The library constructs the query-parameter sequences and full URLs for
//! each endpoint of the API, and classifies response bodies that were
//! decoded by the caller: a successful payload, a server-reported error
//! report, or a body matching neither schema.

use vstd::prelude::*;

pub mod num;
pub mod params;
pub mod query;
pub mod decode;
pub mod laws;

pub use params::{Coordinates, Language, LocationSpecifier, Settings, Unit};

verus! {

/// The error JSON shape the API uses to signal a domain-level failure:
/// a numeric code and a human-readable message.
#[derive(Debug, Clone)]
pub struct ErrorReport {
    pub cod: u64,
    pub message: String,
}

impl ErrorReport {
    pub fn new(cod: u64, message: String) -> (r: ErrorReport)
        ensures
            r.cod == cod,
            r.message@ == message@,
    {
        ErrorReport { cod, message }
    }
}

/// Everything a call can fail with. No error is retried or suppressed:
/// each is classified and handed back to the caller.
#[derive(Debug, Clone)]
pub enum Error {
    /// The API answered with its error JSON: a domain-level failure
    /// such as a bad key or a rate limit.
    Api(ErrorReport),
    /// The body matched neither the success schema nor the error
    /// schema; carries the error-schema failure, then the
    /// success-schema failure.
    Parsing2(String, String),
    /// The HTTP transport failed before any body was available.
    Connection(String),
    /// A request parameter was rejected before any request was built.
    Input { msg: String },
    /// The assembled URL was not a valid URL.
    UrlParsing(String),
}

} // verus!

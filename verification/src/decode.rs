//! Response classification: the API does not use HTTP status codes
//! reliably, so a body is told apart by shape alone. The caller
//! attempts to decode the body as the expected success type and, when
//! that fails, as the API's error report; this module decides, from
//! those two outcomes, what the call returns.

use vstd::prelude::*;
use crate::{Error, ErrorReport};

verus! {

/// Decides the outcome of a call from the two decode attempts on its
/// response body.
///
/// `primary` is the attempt to decode the body as the expected success
/// type; `fallback` is the attempt to decode the same body as the
/// API's error report, and is only consulted when `primary` failed.
///
/// - A decoded success value is returned as it is.
/// - Otherwise a decoded error report means the API itself refused the
///   request, and the call fails with that report.
/// - Otherwise the body matched neither schema, and the call fails
///   carrying both decode failures: the error-report failure first,
///   then the success-schema failure. No default or empty value is
///   ever substituted.
pub fn disambiguate<T>(primary: Result<T, String>, fallback: Result<ErrorReport, String>) -> (r:
    Result<T, Error>)
    ensures
        primary matches Ok(t) ==> (r matches Ok(v) && v == t),
        primary matches Err(pe) ==> (fallback matches Ok(rep) ==> (r matches Err(e) && e matches
            Error::Api(got) && got.cod == rep.cod && got.message@ == rep.message@)),
        primary matches Err(pe) ==> (fallback matches Err(fe) ==> (r matches Err(e) && e matches
            Error::Parsing2(report_failure, success_failure) && report_failure@ == fe@
            && success_failure@ == pe@)),
{
    match primary {
        Ok(t) => Ok(t),
        Err(pe) => match fallback {
            Ok(rep) => Err(Error::Api(rep)),
            Err(fe) => Err(Error::Parsing2(fe, pe)),
        },
    }
}

} // verus!

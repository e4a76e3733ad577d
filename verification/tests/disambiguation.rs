use openweather_client::decode::disambiguate;
use openweather_client::{Error, ErrorReport};

fn parse_report(body: &str) -> Result<ErrorReport, String> {
    let value: serde_json::Value =
        serde_json::from_str(body).map_err(|e| e.to_string())?;
    let cod = value
        .get("cod")
        .and_then(|v| v.as_u64())
        .ok_or_else(|| "missing cod".to_string())?;
    let message = value
        .get("message")
        .and_then(|v| v.as_str())
        .ok_or_else(|| "missing message".to_string())?;
    Ok(ErrorReport::new(cod, message.to_string()))
}

#[test]
fn success_body_returns_decoded_value() {
    let body = "41";
    let primary: Result<u64, String> =
        serde_json::from_str(body).map_err(|e| e.to_string());
    let r = disambiguate(primary, Err(String::new()));
    assert_eq!(r.unwrap(), 41);
}

#[test]
fn error_body_returns_api_error() {
    let body = "{\"cod\": 401, \"message\": \"Invalid API key\"}";
    let primary: Result<u64, String> =
        serde_json::from_str(body).map_err(|e| e.to_string());
    assert!(primary.is_err());
    let r: Result<u64, Error> = disambiguate(primary, parse_report(body));
    match r {
        Err(Error::Api(report)) => {
            assert_eq!(report.cod, 401);
            assert_eq!(report.message.as_str(), "Invalid API key");
        }
        other => panic!("expected an API error, got {:?}", other),
    }
}

#[test]
fn unrecognized_body_returns_both_failures() {
    let body = "not json at all";
    let primary: Result<u64, String> =
        serde_json::from_str(body).map_err(|e| e.to_string());
    let primary_msg = primary.as_ref().unwrap_err().clone();
    let fallback = parse_report(body);
    let fallback_msg = fallback.as_ref().unwrap_err().clone();
    let r: Result<u64, Error> = disambiguate(primary, fallback);
    match r {
        Err(Error::Parsing2(report_failure, success_failure)) => {
            assert_eq!(report_failure, fallback_msg);
            assert_eq!(success_failure, primary_msg);
        }
        other => panic!("expected a combined parse failure, got {:?}", other),
    }
}

#[test]
fn valid_json_matching_neither_schema() {
    let body = "{\"unexpected\": true}";
    let primary: Result<u64, String> =
        serde_json::from_str(body).map_err(|e| e.to_string());
    let r: Result<u64, Error> = disambiguate(primary, parse_report(body));
    assert!(matches!(r, Err(Error::Parsing2(_, _))));
}

use mqttbot::DataPayload;
use mqttbot::ErrorEnvelope;
use mqttbot::FetchOutcome;
use mqttbot::RefluxStationData;
use mqttbot::SuccessEnvelope;
use mqttbot::classify_response;

/// Mimic the transport layer's two schema parse attempts on a raw body, with
/// `serde_json::Value` lookups: the success envelope needs a string `status`
/// and an optional `message`/`data`; the error envelope needs string `status`
/// and `message`.
fn parse_attempts(body: &str) -> (Option<SuccessEnvelope>, Option<ErrorEnvelope>, String) {
    let value: Result<serde_json::Value, serde_json::Error> = serde_json::from_str(body);
    match value {
        Err(e) => (None, None, e.to_string()),
        Ok(v) => {
            let status = v.get("status").and_then(|s| s.as_str()).map(|s| s.to_string());
            let message = v.get("message").and_then(|s| s.as_str()).map(|s| s.to_string());
            let success = status.clone().map(|status| {
                let data = match v.get("data") {
                    None => DataPayload::Missing,
                    Some(d) if d.is_null() => DataPayload::Missing,
                    Some(d) => match d.get("reflux_station_data") {
                        Some(r) if r.is_object() => DataPayload::WithReflux(RefluxStationData {
                            bms_soc: r["bms_soc"].as_str().unwrap_or("").to_string(),
                            bms_in_eq: r["bms_in_eq"].as_str().unwrap_or("").to_string(),
                            bms_out_eq: r["bms_out_eq"].as_str().unwrap_or("").to_string(),
                        }),
                        _ => DataPayload::WithoutReflux,
                    },
                };
                SuccessEnvelope { status, message: message.clone(), data }
            });
            let error = match (v.get("status").and_then(|s| s.as_str()), message) {
                (Some(status), Some(message)) => {
                    Some(ErrorEnvelope { status: status.to_string(), message })
                }
                _ => None,
            };
            (success, error, String::new())
        }
    }
}

#[test]
fn test_classify_auth_expired_literal_body() {
    let body = "{\"status\":\"100\",\"message\":\"token verify error.\",\"data\":null}";
    let (success, error, parse_error) = parse_attempts(body);
    let outcome = classify_response(body.to_string(), success, error, parse_error);
    assert_eq!(outcome, FetchOutcome::AuthExpired);
}

#[test]
fn test_classify_success_with_reflux() {
    let body = "{\"status\":\"0\",\"data\":{\"reflux_station_data\":{\"bms_soc\":\"83\",\"bms_in_eq\":\"12.5\",\"bms_out_eq\":\"11.9\"}}}";
    let (success, error, parse_error) = parse_attempts(body);
    let outcome = classify_response(body.to_string(), success, error, parse_error);
    assert_eq!(
        outcome,
        FetchOutcome::Success(RefluxStationData {
            bms_soc: "83".to_string(),
            bms_in_eq: "12.5".to_string(),
            bms_out_eq: "11.9".to_string(),
        })
    );
}

#[test]
fn test_classify_provider_error() {
    let body = "{\"status\":\"1\",\"message\":\"other\"}";
    let (success, error, parse_error) = parse_attempts(body);
    let outcome = classify_response(body.to_string(), success, error, parse_error);
    assert_eq!(
        outcome,
        FetchOutcome::ProviderError("1".to_string(), "other".to_string())
    );
}

#[test]
fn test_classify_malformed_keeps_raw_body() {
    let body = "this is not json at all <<<";
    let (success, error, parse_error) = parse_attempts(body);
    assert!(success.is_none());
    assert!(error.is_none());
    let outcome = classify_response(body.to_string(), success, error, parse_error.clone());
    match outcome {
        FetchOutcome::MalformedResponse(raw, err) => {
            assert_eq!(raw, body);
            assert_eq!(err, parse_error);
        }
        other => panic!("expected MalformedResponse, got {:?}", other),
    }
}

#[test]
fn test_classify_no_data() {
    // A well-formed success envelope whose data carries no reflux readings:
    // no usable data, not an error.
    let body = "{\"status\":\"0\",\"data\":{\"today_eq\":\"1\"}}";
    let (success, error, parse_error) = parse_attempts(body);
    assert!(error.is_none());
    let outcome = classify_response(body.to_string(), success, error, parse_error);
    assert_eq!(outcome, FetchOutcome::NoData);
}

#[test]
fn test_classify_transport_error_variant_distinct() {
    let outcome = FetchOutcome::TransportError("connection timed out".to_string());
    assert_ne!(outcome, FetchOutcome::NoData);
    assert!(matches!(outcome, FetchOutcome::TransportError(_)));
}

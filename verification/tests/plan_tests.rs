use mqttbot::FetchOutcome;
use mqttbot::RefluxStationData;
use mqttbot::plan_cityflitzer_publishes;
use mqttbot::plan_hoymiles_publishes;

fn reflux() -> RefluxStationData {
    RefluxStationData {
        bms_soc: "83".to_string(),
        bms_in_eq: "12.5".to_string(),
        bms_out_eq: "11.9".to_string(),
    }
}

#[test]
fn test_hoymiles_success_publishes_discovery_then_values() {
    let outcome = Some(FetchOutcome::Success(reflux()));
    let (records, needs_refresh) = plan_hoymiles_publishes(&outcome);
    assert!(!needs_refresh);
    // One discovery message and one value message per sensor, discovery
    // first, in the same sensor order.
    assert_eq!(records.len(), 6);
    assert_eq!(records[0].topic, "homeassistant/sensor/hoymiles_bms_soc/config");
    assert_eq!(records[1].topic, "homeassistant/sensor/hoymiles_bms_in_eq/config");
    assert_eq!(records[2].topic, "homeassistant/sensor/hoymiles_bms_out_eq/config");
    assert_eq!(records[3].topic, "solar/hoymiles/bms_soc");
    assert_eq!(records[3].payload, "83");
    assert_eq!(records[4].topic, "solar/hoymiles/bms_in_eq");
    assert_eq!(records[4].payload, "12.5");
    assert_eq!(records[5].topic, "solar/hoymiles/bms_out_eq");
    assert_eq!(records[5].payload, "11.9");
}

#[test]
fn test_hoymiles_discovery_payload_is_exact_json() {
    let outcome = Some(FetchOutcome::Success(reflux()));
    let (records, _) = plan_hoymiles_publishes(&outcome);
    assert_eq!(
        records[0].payload,
        "{\"name\":\"Battery State of Charge\",\"unique_id\":\"hoymiles_bms_soc\",\
         \"state_topic\":\"solar/hoymiles/bms_soc\",\"device\":{\"identifiers\":\
         [\"hoymiles-ms-a2\"],\"manufacturer\":\"Hoymiles\",\"model\":\"MS-A2\",\
         \"name\":\"Hoymiles MS-A2\",\"sw_version\":\"1.0\"},\"unit_of_measurement\":\
         \"%\",\"device_class\":\"battery\",\"state_class\":\"measurement\"}"
    );
    // The discovery documents parse as JSON with the advertised fields.
    let parsed: serde_json::Value = serde_json::from_str(&records[1].payload).unwrap();
    assert_eq!(parsed["name"], "Battery Charge");
    assert_eq!(parsed["unique_id"], "hoymiles_bms_in_eq");
    assert_eq!(parsed["state_topic"], "solar/hoymiles/bms_in_eq");
    assert_eq!(parsed["device"]["manufacturer"], "Hoymiles");
    assert_eq!(parsed["unit_of_measurement"], "kWh");
    assert_eq!(parsed["device_class"], "energy");
    assert_eq!(parsed["state_class"], "total_increasing");
}

#[test]
fn test_hoymiles_auth_expired_requests_refresh_and_skips_values() {
    let outcome = Some(FetchOutcome::AuthExpired);
    let (records, needs_refresh) = plan_hoymiles_publishes(&outcome);
    assert!(needs_refresh);
    assert_eq!(records.len(), 3);
}

#[test]
fn test_hoymiles_errors_skip_values_without_refresh() {
    for outcome in [
        Some(FetchOutcome::ProviderError("1".to_string(), "other".to_string())),
        Some(FetchOutcome::TransportError("timeout".to_string())),
        Some(FetchOutcome::MalformedResponse("<html>".to_string(), "oops".to_string())),
        Some(FetchOutcome::NoData),
        None,
    ] {
        let (records, needs_refresh) = plan_hoymiles_publishes(&outcome);
        assert!(!needs_refresh);
        assert_eq!(records.len(), 3);
    }
}

#[test]
fn test_cityflitzer_publishes_discovery_then_values() {
    let records = plan_cityflitzer_publishes(4, "2024-05-04T12:00:00Z");
    assert_eq!(records.len(), 4);
    assert_eq!(records[0].topic, "homeassistant/sensor/cityflitzer_nearby/config");
    assert_eq!(records[1].topic, "homeassistant/sensor/cityflitzer_update/config");
    assert_eq!(records[2].topic, "mobility/cityflitzer/cityflitzer_nearby");
    assert_eq!(records[2].payload, "4");
    assert_eq!(records[3].topic, "mobility/cityflitzer/update_date");
    assert_eq!(records[3].payload, "2024-05-04T12:00:00Z");

    let parsed: serde_json::Value = serde_json::from_str(&records[0].payload).unwrap();
    assert_eq!(parsed["name"], "Nearby Cars");
    assert_eq!(parsed["state_class"], "measurement");
    let parsed: serde_json::Value = serde_json::from_str(&records[1].payload).unwrap();
    assert_eq!(parsed["name"], "Last Update");
    assert_eq!(parsed["device_class"], "timestamp");
}

use mqttbot::Device;
use mqttbot::Payload;
use mqttbot::SensorConfig;
use mqttbot::create_sensor;
use mqttbot::discovery_topic;
use mqttbot::full_topic;
use mqttbot::json_escape;
use mqttbot::json_string;

fn device() -> Device {
    Device {
        identifiers: vec!["dev-1".to_string(), "dev-2".to_string()],
        manufacturer: "Acme".to_string(),
        model: "M1".to_string(),
        name: "Acme M1".to_string(),
        sw_version: "1.0".to_string(),
    }
}

#[test]
fn test_sensor_config_builders() {
    let c = SensorConfig::new("Power", "acme_power", "home/acme/power", device())
        .with_device_class("power")
        .with_state_class("measurement")
        .with_unit_of_measurement("W");
    assert_eq!(c.name, "Power");
    assert_eq!(c.unique_id, "acme_power");
    assert_eq!(c.state_topic, "home/acme/power");
    assert_eq!(c.device_class.as_deref(), Some("power"));
    assert_eq!(c.state_class.as_deref(), Some("measurement"));
    assert_eq!(c.unit_of_measurement.as_deref(), Some("W"));
    assert_eq!(c.entity_category, None);

    let plain = create_sensor("Power", "acme_power", "home/acme/power", device());
    assert_eq!(plain.device_class, None);
    assert_eq!(plain.state_class, None);
    assert_eq!(plain.unit_of_measurement, None);
}

#[test]
fn test_to_json_without_optional_members() {
    let c = create_sensor("Power", "acme_power", "home/acme/power", device());
    assert_eq!(
        c.to_json(),
        "{\"name\":\"Power\",\"unique_id\":\"acme_power\",\"state_topic\":\"home/acme/power\",\
         \"device\":{\"identifiers\":[\"dev-1\",\"dev-2\"],\"manufacturer\":\"Acme\",\
         \"model\":\"M1\",\"name\":\"Acme M1\",\"sw_version\":\"1.0\"}}"
    );
}

#[test]
fn test_json_escaping_in_documents() {
    assert_eq!(json_escape("plain"), "plain");
    assert_eq!(json_escape("a\"b\\c"), "a\\\"b\\\\c");
    assert_eq!(json_escape("line1\nline2\r\ttabbed"), "line1\\nline2\\r\\ttabbed");
    assert_eq!(json_string("say \"hi\""), "\"say \\\"hi\\\"\"");

    // A name needing escapes still yields a valid document.
    let c = create_sensor("A \"quoted\" name", "uid", "t", device());
    let parsed: serde_json::Value = serde_json::from_str(&c.to_json()).unwrap();
    assert_eq!(parsed["name"], "A \"quoted\" name");
}

#[test]
fn test_to_json_with_empty_identifier_list() {
    let bare = Device {
        identifiers: vec![],
        manufacturer: "Acme".to_string(),
        model: "M1".to_string(),
        name: "Acme M1".to_string(),
        sw_version: "1.0".to_string(),
    };
    let c = create_sensor("Power", "acme_power", "home/acme/power", bare);
    let parsed: serde_json::Value = serde_json::from_str(&c.to_json()).unwrap();
    assert_eq!(parsed["device"]["identifiers"], serde_json::Value::Array(vec![]));
}

#[test]
fn test_topics() {
    assert_eq!(full_topic("solar/hoymiles", "bms_soc"), "solar/hoymiles/bms_soc");
    assert_eq!(
        discovery_topic("homeassistant", "sensor", "hoymiles_bms_soc"),
        "homeassistant/sensor/hoymiles_bms_soc/config"
    );
    let p = Payload { topic_suffix: "healthy".to_string(), payload: "true".to_string() };
    let r = p.to_record("home/storage/raidstatus");
    assert_eq!(r.topic, "home/storage/raidstatus/healthy");
    assert_eq!(r.payload, "true");
}

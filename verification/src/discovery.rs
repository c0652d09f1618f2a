//! Self-describing discovery metadata for the home-automation hub.
//!
//! Each published sensor is announced once per cycle with a retained
//! configuration document: name, unique id, state topic, device metadata
//! and optional presentation hints. The document is rendered as JSON text
//! here, field for field.

use vstd::prelude::*;
use vstd::string::StringExecFns;
use crate::json::json_string;
use crate::json::json_string_array;
use crate::json::spec_json_string;
use crate::json::spec_json_string_array;
use crate::payload::full_topic;
use crate::payload::spec_full_topic;
use crate::strutil::spec_views;

verus! {

/// The device a group of sensors belongs to, as shown by the hub.
#[derive(Clone, Debug, PartialEq, Eq)]
pub struct Device {
    pub identifiers: Vec<String>,
    pub manufacturer: String,
    pub model: String,
    pub name: String,
    pub sw_version: String,
}

/// The discovery configuration of one sensor.
#[derive(Clone, Debug, PartialEq, Eq)]
pub struct SensorConfig {
    pub name: String,
    pub unique_id: String,
    pub state_topic: String,
    pub device: Device,
    pub unit_of_measurement: Option<String>,
    pub device_class: Option<String>,
    pub state_class: Option<String>,
    pub entity_category: Option<String>,
}

/// The view of an optional string.
pub open spec fn spec_opt_view(o: Option<String>) -> Option<Seq<char>> {
    match o {
        Some(s) => Some(s@),
        None => None,
    }
}

/// An optional JSON member: the key fragment followed by the string value,
/// nothing where the value is absent.
pub open spec fn spec_opt_member(key: Seq<char>, v: Option<Seq<char>>) -> Seq<char> {
    if v is Some {
        key + spec_json_string(v->0)
    } else {
        Seq::<char>::empty()
    }
}

/// The JSON rendering of device metadata, from its field texts.
pub open spec fn spec_device_json_fields(
    identifiers: Seq<Seq<char>>,
    manufacturer: Seq<char>,
    model: Seq<char>,
    name: Seq<char>,
    sw_version: Seq<char>,
) -> Seq<char> {
    "{\"identifiers\":"@ + spec_json_string_array(identifiers) + ",\"manufacturer\":"@
        + spec_json_string(manufacturer) + ",\"model\":"@ + spec_json_string(model)
        + ",\"name\":"@ + spec_json_string(name) + ",\"sw_version\":"@ + spec_json_string(
        sw_version,
    ) + "}"@
}

/// The JSON rendering of the device metadata.
pub open spec fn spec_device_json(d: Device) -> Seq<char> {
    spec_device_json_fields(
        spec_views(d.identifiers@),
        d.manufacturer@,
        d.model@,
        d.name@,
        d.sw_version@,
    )
}

/// The JSON rendering of a sensor's discovery configuration, from its field
/// texts: the required members in a fixed order, then each optional member
/// that is present.
pub open spec fn spec_sensor_json_fields(
    name: Seq<char>,
    unique_id: Seq<char>,
    state_topic: Seq<char>,
    device_json: Seq<char>,
    unit_of_measurement: Option<Seq<char>>,
    device_class: Option<Seq<char>>,
    state_class: Option<Seq<char>>,
    entity_category: Option<Seq<char>>,
) -> Seq<char> {
    "{\"name\":"@ + spec_json_string(name) + ",\"unique_id\":"@ + spec_json_string(unique_id)
        + ",\"state_topic\":"@ + spec_json_string(state_topic) + ",\"device\":"@ + device_json
        + spec_opt_member(",\"unit_of_measurement\":"@, unit_of_measurement) + spec_opt_member(
        ",\"device_class\":"@,
        device_class,
    ) + spec_opt_member(",\"state_class\":"@, state_class) + spec_opt_member(
        ",\"entity_category\":"@,
        entity_category,
    ) + "}"@
}

/// The JSON rendering of a sensor's discovery configuration.
pub open spec fn spec_sensor_json(c: SensorConfig) -> Seq<char> {
    spec_sensor_json_fields(
        c.name@,
        c.unique_id@,
        c.state_topic@,
        spec_device_json(c.device),
        spec_opt_view(c.unit_of_measurement),
        spec_opt_view(c.device_class),
        spec_opt_view(c.state_class),
        spec_opt_view(c.entity_category),
    )
}

/// The retained discovery topic for a sensor:
/// `<discovery prefix>/<component type>/<unique id>/config`.
pub open spec fn spec_discovery_topic(
    prefix: Seq<char>,
    component: Seq<char>,
    unique_id: Seq<char>,
) -> Seq<char> {
    spec_full_topic(spec_full_topic(spec_full_topic(prefix, component), unique_id), "config"@)
}

/// Build the retained discovery topic for a sensor.
pub fn discovery_topic(prefix: &str, component: &str, unique_id: &str) -> (r: String)
    ensures
        r@ == spec_discovery_topic(prefix@, component@, unique_id@),
{
    let a = full_topic(prefix, component);
    let b = full_topic(a.as_str(), unique_id);
    full_topic(b.as_str(), "config")
}

impl SensorConfig {
    /// A configuration with the required fields set and no presentation
    /// hints.
    pub fn new(name: &str, unique_id: &str, state_topic: &str, device: Device) -> (c: Self)
        ensures
            c.name@ == name@,
            c.unique_id@ == unique_id@,
            c.state_topic@ == state_topic@,
            c.device == device,
            c.unit_of_measurement is None,
            c.device_class is None,
            c.state_class is None,
            c.entity_category is None,
    {
        SensorConfig {
            name: String::from_str(name),
            unique_id: String::from_str(unique_id),
            state_topic: String::from_str(state_topic),
            device,
            unit_of_measurement: None,
            device_class: None,
            state_class: None,
            entity_category: None,
        }
    }

    /// The same configuration with the device class set.
    pub fn with_device_class(self, device_class: &str) -> (c: Self)
        ensures
            c == (SensorConfig { device_class: c.device_class, ..self }),
            c.device_class is Some,
            c.device_class->0@ == device_class@,
    {
        SensorConfig { device_class: Some(String::from_str(device_class)), ..self }
    }

    /// The same configuration with the state class set.
    pub fn with_state_class(self, state_class: &str) -> (c: Self)
        ensures
            c == (SensorConfig { state_class: c.state_class, ..self }),
            c.state_class is Some,
            c.state_class->0@ == state_class@,
    {
        SensorConfig { state_class: Some(String::from_str(state_class)), ..self }
    }

    /// The same configuration with the unit of measurement set.
    pub fn with_unit_of_measurement(self, unit: &str) -> (c: Self)
        ensures
            c == (SensorConfig { unit_of_measurement: c.unit_of_measurement, ..self }),
            c.unit_of_measurement is Some,
            c.unit_of_measurement->0@ == unit@,
    {
        SensorConfig { unit_of_measurement: Some(String::from_str(unit)), ..self }
    }

    /// Render the discovery configuration as its JSON document.
    #[verifier::rlimit(50)]
    pub fn to_json(&self) -> (r: String)
        ensures
            r@ == spec_sensor_json(*self),
    {
        let mut out = String::from_str("{\"name\":");
        let mut piece = json_string(self.name.as_str());
        out.append(piece.as_str());
        out.append(",\"unique_id\":");
        piece = json_string(self.unique_id.as_str());
        out.append(piece.as_str());
        out.append(",\"state_topic\":");
        piece = json_string(self.state_topic.as_str());
        out.append(piece.as_str());
        out.append(",\"device\":");
        out.append("{\"identifiers\":");
        piece = json_string_array(&self.device.identifiers);
        out.append(piece.as_str());
        out.append(",\"manufacturer\":");
        piece = json_string(self.device.manufacturer.as_str());
        out.append(piece.as_str());
        out.append(",\"model\":");
        piece = json_string(self.device.model.as_str());
        out.append(piece.as_str());
        out.append(",\"name\":");
        piece = json_string(self.device.name.as_str());
        out.append(piece.as_str());
        out.append(",\"sw_version\":");
        piece = json_string(self.device.sw_version.as_str());
        out.append(piece.as_str());
        out.append("}");
        proof {
            assert(out@ =~= "{\"name\":"@ + spec_json_string(self.name@) + ",\"unique_id\":"@
                + spec_json_string(self.unique_id@) + ",\"state_topic\":"@ + spec_json_string(
                self.state_topic@,
            ) + ",\"device\":"@ + spec_device_json(self.device));
        }
        let ghost mut expected: Seq<char> = out@;
        match &self.unit_of_measurement {
            Some(v) => {
                out.append(",\"unit_of_measurement\":");
                piece = json_string(v.as_str());
                out.append(piece.as_str());
            },
            None => {},
        }
        proof {
            expected = expected + spec_opt_member(",\"unit_of_measurement\":"@, spec_opt_view(self.unit_of_measurement));
            assert(out@ =~= expected);
        }
        match &self.device_class {
            Some(v) => {
                out.append(",\"device_class\":");
                piece = json_string(v.as_str());
                out.append(piece.as_str());
            },
            None => {},
        }
        proof {
            expected = expected + spec_opt_member(",\"device_class\":"@, spec_opt_view(self.device_class));
            assert(out@ =~= expected);
        }
        match &self.state_class {
            Some(v) => {
                out.append(",\"state_class\":");
                piece = json_string(v.as_str());
                out.append(piece.as_str());
            },
            None => {},
        }
        proof {
            expected = expected + spec_opt_member(",\"state_class\":"@, spec_opt_view(self.state_class));
            assert(out@ =~= expected);
        }
        match &self.entity_category {
            Some(v) => {
                out.append(",\"entity_category\":");
                piece = json_string(v.as_str());
                out.append(piece.as_str());
            },
            None => {},
        }
        proof {
            expected = expected + spec_opt_member(",\"entity_category\":"@, spec_opt_view(self.entity_category));
            assert(out@ =~= expected);
        }
        out.append("}");
        proof {
            assert(out@ =~= spec_sensor_json(*self));
        }
        out
    }
}

/// A generic sensor configuration with no presentation hints.
pub fn create_sensor(name: &str, unique_id: &str, state_topic: &str, device: Device) -> (c:
    SensorConfig)
    ensures
        c.name@ == name@,
        c.unique_id@ == unique_id@,
        c.state_topic@ == state_topic@,
        c.device == device,
        c.unit_of_measurement is None,
        c.device_class is None,
        c.state_class is None,
        c.entity_category is None,
{
    SensorConfig::new(name, unique_id, state_topic, device)
}

/// A battery state-of-charge sensor: percent unit, battery device class,
/// measurement state class.
pub fn create_battery_sensor(name: &str, unique_id: &str, state_topic: &str, device: Device) -> (c:
    SensorConfig)
    ensures
        c.name@ == name@,
        c.unique_id@ == unique_id@,
        c.state_topic@ == state_topic@,
        c.device == device,
        c.unit_of_measurement is Some && c.unit_of_measurement->0@ == "%"@,
        c.device_class is Some && c.device_class->0@ == "battery"@,
        c.state_class is Some && c.state_class->0@ == "measurement"@,
        c.entity_category is None,
{
    SensorConfig::new(name, unique_id, state_topic, device).with_unit_of_measurement(
        "%",
    ).with_device_class("battery").with_state_class("measurement")
}

/// An accumulating energy sensor: kilowatt-hour unit, energy device class,
/// total-increasing state class.
pub fn create_energy_sensor(name: &str, unique_id: &str, state_topic: &str, device: Device) -> (c:
    SensorConfig)
    ensures
        c.name@ == name@,
        c.unique_id@ == unique_id@,
        c.state_topic@ == state_topic@,
        c.device == device,
        c.unit_of_measurement is Some && c.unit_of_measurement->0@ == "kWh"@,
        c.device_class is Some && c.device_class->0@ == "energy"@,
        c.state_class is Some && c.state_class->0@ == "total_increasing"@,
        c.entity_category is None,
{
    SensorConfig::new(name, unique_id, state_topic, device).with_unit_of_measurement(
        "kWh",
    ).with_device_class("energy").with_state_class("total_increasing")
}

} // verus!

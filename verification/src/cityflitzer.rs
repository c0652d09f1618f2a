//! The vehicle-sharing data source: publish planning.
//!
//! The caller queries the provider and counts the nearby vehicles; one
//! cycle's publishes for the source are planned here: the two sensors'
//! retained discovery documents first, then the nearby-vehicle count and
//! the update timestamp, in that order.

use vstd::prelude::*;
use vstd::string::StringExecFns;
use crate::discovery::Device;
use crate::discovery::create_sensor;
use crate::discovery::discovery_topic;
use crate::discovery::spec_device_json_fields;
use crate::discovery::spec_discovery_topic;
use crate::discovery::spec_sensor_json_fields;
use crate::payload::Payload;
use crate::payload::PublishRecord;
use crate::payload::spec_full_topic;
use crate::strutil::spec_dec_digits;
use crate::strutil::u64_to_dec_string;

verus! {

/// The device metadata the source's sensors are grouped under.
pub open spec fn spec_cityflitzer_device_json() -> Seq<char> {
    spec_device_json_fields(
        seq!["cityflitzer-monitor"@],
        "Cityflitzer"@,
        "API Monitor"@,
        "Cityflitzer Monitor"@,
        "1.0"@,
    )
}

/// The device metadata the source's sensors are grouped under.
pub fn cityflitzer_device() -> (d: Device)
    ensures
        crate::discovery::spec_device_json(d) == spec_cityflitzer_device_json(),
{
    let mut identifiers: Vec<String> = Vec::new();
    identifiers.push(String::from_str("cityflitzer-monitor"));
    let d = Device {
        identifiers,
        manufacturer: String::from_str("Cityflitzer"),
        model: String::from_str("API Monitor"),
        name: String::from_str("Cityflitzer Monitor"),
        sw_version: String::from_str("1.0"),
    };
    proof {
        assert(crate::strutil::spec_views(d.identifiers@) =~= seq!["cityflitzer-monitor"@]);
    }
    d
}

/// The discovery document of the nearby-vehicle count sensor.
pub open spec fn spec_nearby_sensor_json() -> Seq<char> {
    spec_sensor_json_fields(
        "Nearby Cars"@,
        "cityflitzer_nearby"@,
        spec_full_topic("mobility/cityflitzer"@, "cityflitzer_nearby"@),
        spec_cityflitzer_device_json(),
        None,
        None,
        Some("measurement"@),
        None,
    )
}

/// The discovery document of the update-timestamp sensor.
pub open spec fn spec_update_sensor_json() -> Seq<char> {
    spec_sensor_json_fields(
        "Last Update"@,
        "cityflitzer_update"@,
        spec_full_topic("mobility/cityflitzer"@, "update_date"@),
        spec_cityflitzer_device_json(),
        None,
        Some("timestamp"@),
        None,
        None,
    )
}

/// Plan one cycle's publishes for this source from the nearby-vehicle count
/// and the cycle's timestamp: the two sensors' retained discovery documents
/// first, then the count and the timestamp as values.
pub fn plan_cityflitzer_publishes(cars_found: u64, timestamp: &str) -> (r: Vec<PublishRecord>)
    ensures
        r@.len() == 4,
        r@[0].topic@ == spec_discovery_topic("homeassistant"@, "sensor"@, "cityflitzer_nearby"@),
        r@[0].payload@ == spec_nearby_sensor_json(),
        r@[1].topic@ == spec_discovery_topic("homeassistant"@, "sensor"@, "cityflitzer_update"@),
        r@[1].payload@ == spec_update_sensor_json(),
        r@[2].topic@ == spec_full_topic("mobility/cityflitzer"@, "cityflitzer_nearby"@),
        r@[2].payload@ == spec_dec_digits(cars_found as nat),
        r@[3].topic@ == spec_full_topic("mobility/cityflitzer"@, "update_date"@),
        r@[3].payload@ == timestamp@,
{
    let mut records: Vec<PublishRecord> = Vec::new();

    let nearby = create_sensor(
        "Nearby Cars",
        "cityflitzer_nearby",
        crate::payload::full_topic("mobility/cityflitzer", "cityflitzer_nearby").as_str(),
        cityflitzer_device(),
    ).with_state_class("measurement");
    records.push(
        PublishRecord {
            topic: discovery_topic("homeassistant", "sensor", "cityflitzer_nearby"),
            payload: nearby.to_json(),
        },
    );

    let update = create_sensor(
        "Last Update",
        "cityflitzer_update",
        crate::payload::full_topic("mobility/cityflitzer", "update_date").as_str(),
        cityflitzer_device(),
    ).with_device_class("timestamp");
    records.push(
        PublishRecord {
            topic: discovery_topic("homeassistant", "sensor", "cityflitzer_update"),
            payload: update.to_json(),
        },
    );

    let value = Payload {
        topic_suffix: String::from_str("cityflitzer_nearby"),
        payload: u64_to_dec_string(cars_found),
    };
    records.push(value.to_record("mobility/cityflitzer"));

    let value = Payload {
        topic_suffix: String::from_str("update_date"),
        payload: String::from_str(timestamp),
    };
    records.push(value.to_record("mobility/cityflitzer"));

    records
}

} // verus!

//! The solar-inverter data source: request payloads and publish planning.
//!
//! The transport is the caller's concern; everything the provider must be
//! sent — the region-lookup and login bodies, the station-listing and
//! station-data queries — is rendered here, and what one cycle must publish
//! for this source is planned here from the fetch's classification: the
//! three sensors' retained discovery documents first, then, only on a
//! successful fetch, their three values, in the same sensor order.

use vstd::prelude::*;
use vstd::string::StringExecFns;
use crate::classify::FetchOutcome;
use crate::discovery::Device;
use crate::discovery::create_battery_sensor;
use crate::discovery::create_energy_sensor;
use crate::discovery::discovery_topic;
use crate::discovery::spec_device_json_fields;
use crate::discovery::spec_discovery_topic;
use crate::discovery::spec_sensor_json_fields;
use crate::json::json_string;
use crate::json::spec_json_string;
use crate::payload::Payload;
use crate::payload::PublishRecord;
use crate::payload::spec_full_topic;
use crate::strutil::spec_dec_digits;
use crate::strutil::u64_to_dec_string;

verus! {

/// The path the login endpoint hangs under the region's base URL.
pub open spec fn spec_login_endpoint(base: Seq<char>) -> Seq<char> {
    base + "/iam/pub/0/c/login_c"@
}

/// The login URL for a region's base URL.
pub fn login_endpoint(base: &str) -> (r: String)
    ensures
        r@ == spec_login_endpoint(base@),
{
    let mut out = String::from_str(base);
    out.append("/iam/pub/0/c/login_c");
    out
}

/// The region-lookup body: the account email.
pub open spec fn spec_region_payload(username: Seq<char>) -> Seq<char> {
    "{\"email\":"@ + spec_json_string(username) + "}"@
}

/// Render the region-lookup body for an account.
pub fn region_payload(username: &str) -> (r: String)
    ensures
        r@ == spec_region_payload(username@),
{
    let mut out = String::from_str("{\"email\":");
    let piece = json_string(username);
    out.append(piece.as_str());
    out.append("}");
    proof {
        assert(out@ =~= spec_region_payload(username@));
    }
    out
}

/// The login body: the account name and the composite encoded password.
pub open spec fn spec_login_payload(username: Seq<char>, encoded_password: Seq<char>) -> Seq<
    char,
> {
    "{\"user_name\":"@ + spec_json_string(username) + ",\"password\":"@ + spec_json_string(
        encoded_password,
    ) + "}"@
}

/// Render the login body for an account and its encoded password.
pub fn login_payload(username: &str, encoded_password: &str) -> (r: String)
    ensures
        r@ == spec_login_payload(username@, encoded_password@),
{
    let mut out = String::from_str("{\"user_name\":");
    let mut piece = json_string(username);
    out.append(piece.as_str());
    out.append(",\"password\":");
    piece = json_string(encoded_password);
    out.append(piece.as_str());
    out.append("}");
    proof {
        assert(out@ =~= spec_login_payload(username@, encoded_password@));
    }
    out
}

/// The station-listing query: the first page, fifty entries.
pub fn station_list_payload() -> (r: String)
    ensures
        r@ == "{\"page\":1,\"page_size\":50}"@,
{
    String::from_str("{\"page\":1,\"page_size\":50}")
}

/// The station-data query body for a station id.
pub open spec fn spec_station_data_payload(sid: Seq<char>) -> Seq<char> {
    "{\"sid\":"@ + spec_json_string(sid) + "}"@
}

/// Render the station-data query body for a station id.
pub fn station_data_payload(sid: &str) -> (r: String)
    ensures
        r@ == spec_station_data_payload(sid@),
{
    let mut out = String::from_str("{\"sid\":");
    let piece = json_string(sid);
    out.append(piece.as_str());
    out.append("}");
    proof {
        assert(out@ =~= spec_station_data_payload(sid@));
    }
    out
}

/// The session id a station listing yields: the first entry's numeric
/// station id rendered in decimal, or nothing when the listing is empty
/// (the session then stays unusable).
pub fn first_station_sid(station_ids: &Vec<u64>) -> (r: Option<String>)
    ensures
        r is Some <==> station_ids@.len() > 0,
        r is Some ==> r->0@ == spec_dec_digits(station_ids@[0] as nat),
{
    if station_ids.len() == 0 {
        None
    } else {
        Some(u64_to_dec_string(station_ids[0]))
    }
}

/// The device metadata the source's sensors are grouped under.
pub open spec fn spec_hoymiles_device_json() -> Seq<char> {
    spec_device_json_fields(
        seq!["hoymiles-ms-a2"@],
        "Hoymiles"@,
        "MS-A2"@,
        "Hoymiles MS-A2"@,
        "1.0"@,
    )
}

/// The device metadata the source's sensors are grouped under.
pub fn hoymiles_device() -> (d: Device)
    ensures
        crate::discovery::spec_device_json(d) == spec_hoymiles_device_json(),
{
    let mut identifiers: Vec<String> = Vec::new();
    identifiers.push(String::from_str("hoymiles-ms-a2"));
    let d = Device {
        identifiers,
        manufacturer: String::from_str("Hoymiles"),
        model: String::from_str("MS-A2"),
        name: String::from_str("Hoymiles MS-A2"),
        sw_version: String::from_str("1.0"),
    };
    proof {
        assert(crate::strutil::spec_views(d.identifiers@) =~= seq!["hoymiles-ms-a2"@]);
    }
    d
}

/// The discovery document of the battery state-of-charge sensor.
pub open spec fn spec_soc_sensor_json() -> Seq<char> {
    spec_sensor_json_fields(
        "Battery State of Charge"@,
        "hoymiles_bms_soc"@,
        spec_full_topic("solar/hoymiles"@, "bms_soc"@),
        spec_hoymiles_device_json(),
        Some("%"@),
        Some("battery"@),
        Some("measurement"@),
        None,
    )
}

/// The discovery document of the battery charge sensor.
pub open spec fn spec_charge_sensor_json() -> Seq<char> {
    spec_sensor_json_fields(
        "Battery Charge"@,
        "hoymiles_bms_in_eq"@,
        spec_full_topic("solar/hoymiles"@, "bms_in_eq"@),
        spec_hoymiles_device_json(),
        Some("kWh"@),
        Some("energy"@),
        Some("total_increasing"@),
        None,
    )
}

/// The discovery document of the battery discharge sensor.
pub open spec fn spec_discharge_sensor_json() -> Seq<char> {
    spec_sensor_json_fields(
        "Battery Discharge"@,
        "hoymiles_bms_out_eq"@,
        spec_full_topic("solar/hoymiles"@, "bms_out_eq"@),
        spec_hoymiles_device_json(),
        Some("kWh"@),
        Some("energy"@),
        Some("total_increasing"@),
        None,
    )
}

/// Plan one cycle's publishes for this source from the fetch's
/// classification (`None` where the session was unusable and no fetch was
/// made). The three sensors' retained discovery documents always come
/// first; exactly on a successful fetch they are followed by the three
/// sensor values, in the same sensor order. The second result says whether
/// the session must be refreshed before the next cycle's fetch — exactly
/// when the provider signalled expiry.
pub fn plan_hoymiles_publishes(outcome: &Option<FetchOutcome>) -> (r: (Vec<PublishRecord>, bool))
    ensures
        r.1 <==> (outcome is Some && outcome->0 is AuthExpired),
        r.0@.len() == (if outcome is Some && outcome->0 is Success {
            6int
        } else {
            3int
        }),
        r.0@[0].topic@ == spec_discovery_topic("homeassistant"@, "sensor"@, "hoymiles_bms_soc"@),
        r.0@[0].payload@ == spec_soc_sensor_json(),
        r.0@[1].topic@ == spec_discovery_topic("homeassistant"@, "sensor"@, "hoymiles_bms_in_eq"@),
        r.0@[1].payload@ == spec_charge_sensor_json(),
        r.0@[2].topic@ == spec_discovery_topic(
            "homeassistant"@,
            "sensor"@,
            "hoymiles_bms_out_eq"@,
        ),
        r.0@[2].payload@ == spec_discharge_sensor_json(),
        outcome is Some && outcome->0 is Success ==> {
            &&& r.0@[3].topic@ == spec_full_topic("solar/hoymiles"@, "bms_soc"@)
            &&& r.0@[3].payload == outcome->0->Success_0.bms_soc
            &&& r.0@[4].topic@ == spec_full_topic("solar/hoymiles"@, "bms_in_eq"@)
            &&& r.0@[4].payload == outcome->0->Success_0.bms_in_eq
            &&& r.0@[5].topic@ == spec_full_topic("solar/hoymiles"@, "bms_out_eq"@)
            &&& r.0@[5].payload == outcome->0->Success_0.bms_out_eq
        },
{
    let mut records: Vec<PublishRecord> = Vec::new();

    let soc = create_battery_sensor(
        "Battery State of Charge",
        "hoymiles_bms_soc",
        crate::payload::full_topic("solar/hoymiles", "bms_soc").as_str(),
        hoymiles_device(),
    );
    records.push(
        PublishRecord {
            topic: discovery_topic("homeassistant", "sensor", "hoymiles_bms_soc"),
            payload: soc.to_json(),
        },
    );

    let charge = create_energy_sensor(
        "Battery Charge",
        "hoymiles_bms_in_eq",
        crate::payload::full_topic("solar/hoymiles", "bms_in_eq").as_str(),
        hoymiles_device(),
    );
    records.push(
        PublishRecord {
            topic: discovery_topic("homeassistant", "sensor", "hoymiles_bms_in_eq"),
            payload: charge.to_json(),
        },
    );

    let discharge = create_energy_sensor(
        "Battery Discharge",
        "hoymiles_bms_out_eq",
        crate::payload::full_topic("solar/hoymiles", "bms_out_eq").as_str(),
        hoymiles_device(),
    );
    records.push(
        PublishRecord {
            topic: discovery_topic("homeassistant", "sensor", "hoymiles_bms_out_eq"),
            payload: discharge.to_json(),
        },
    );

    let mut needs_refresh = false;
    match outcome {
        Some(FetchOutcome::Success(d)) => {
            let value = Payload {
                topic_suffix: String::from_str("bms_soc"),
                payload: d.bms_soc.clone(),
            };
            records.push(value.to_record("solar/hoymiles"));
            let value = Payload {
                topic_suffix: String::from_str("bms_in_eq"),
                payload: d.bms_in_eq.clone(),
            };
            records.push(value.to_record("solar/hoymiles"));
            let value = Payload {
                topic_suffix: String::from_str("bms_out_eq"),
                payload: d.bms_out_eq.clone(),
            };
            records.push(value.to_record("solar/hoymiles"));
        },
        Some(FetchOutcome::AuthExpired) => {
            needs_refresh = true;
        },
        _ => {},
    }
    (records, needs_refresh)
}

} // verus!

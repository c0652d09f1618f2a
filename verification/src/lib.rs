//! A home-automation bridge library: session lifecycle management for an
//! authenticated solar-inverter cloud API, response classification, bounded
//! exponential-backoff connection supervision, and publish planning for a
//! message bus.

pub mod auth;
pub mod backoff;
pub mod bikes;
pub mod cityflitzer;
pub mod classify;
pub mod config;
pub mod discovery;
pub mod hoymiles;
pub mod json;
pub mod payload;
pub mod raid;
pub mod session;
pub mod strutil;
pub mod supervisor;

pub use auth::encode_password;
pub use auth::to_lower_hex;
pub use backoff::BackoffState;
pub use bikes::City;
pub use bikes::Country;
pub use bikes::Data;
pub use bikes::Place;
pub use bikes::bike_finder;
pub use classify::DataPayload;
pub use classify::ErrorEnvelope;
pub use classify::FetchOutcome;
pub use classify::RefluxStationData;
pub use classify::SuccessEnvelope;
pub use classify::classify_response;
pub use cityflitzer::cityflitzer_device;
pub use cityflitzer::plan_cityflitzer_publishes;
pub use config::GeneralConfig;
pub use config::MqttConfig;
pub use discovery::Device;
pub use discovery::SensorConfig;
pub use discovery::create_battery_sensor;
pub use discovery::create_energy_sensor;
pub use discovery::create_sensor;
pub use discovery::discovery_topic;
pub use hoymiles::first_station_sid;
pub use hoymiles::hoymiles_device;
pub use hoymiles::login_endpoint;
pub use hoymiles::login_payload;
pub use hoymiles::plan_hoymiles_publishes;
pub use hoymiles::region_payload;
pub use hoymiles::station_data_payload;
pub use hoymiles::station_list_payload;
pub use json::json_escape;
pub use json::json_string;
pub use json::json_string_array;
pub use payload::Payload;
pub use payload::PublishRecord;
pub use payload::full_topic;
pub use raid::DiskutilOutput;
pub use raid::RaidMember;
pub use raid::RaidSet;
pub use raid::RaidStatus;
pub use raid::check_raid_health;
pub use raid::get_raid_status;
pub use session::HoymilesState;
pub use session::init;
pub use strutil::join_comma;
pub use strutil::u64_to_dec_string;
pub use supervisor::ConnectionPhase;
pub use supervisor::Supervisor;
pub use supervisor::SupervisorAction;

use vstd::prelude::*;

verus! {

/// A device of the registry: its storage id, the id the sensor service knows
/// it by, a display name, and whether alerts are wanted for it.
#[derive(Debug)]
pub struct Device {
    pub id: i32,
    pub device_id: String,
    pub name: String,
    pub alert: bool,
}

/// A stored reading. Temperatures and humidities in hundredths, `time` in
/// seconds since the Unix epoch.
#[derive(Clone, Copy, Debug)]
pub struct Measurement {
    pub id: i32,
    pub device_id: i32,
    pub time: i64,
    pub temperature: i32,
    pub humidity: i32,
    pub temperature_outside: Option<i32>,
    pub humidity_outside: Option<i32>,
}

/// A reading about to be stored; the store assigns its id.
#[derive(Clone, Copy, Debug)]
pub struct NewMeasurement {
    pub device_id: i32,
    pub time: i64,
    pub temperature: i32,
    pub humidity: i32,
    pub temperature_outside: Option<i32>,
    pub humidity_outside: Option<i32>,
}

impl NewMeasurement {
    pub fn new(
        device_id: i32,
        time: i64,
        temperature: i32,
        humidity: i32,
        temperature_outside: Option<i32>,
        humidity_outside: Option<i32>,
    ) -> (r: NewMeasurement)
        ensures
            r.device_id == device_id,
            r.time == time,
            r.temperature == temperature,
            r.humidity == humidity,
            r.temperature_outside == temperature_outside,
            r.humidity_outside == humidity_outside,
    {
        NewMeasurement {
            device_id,
            time,
            temperature,
            humidity,
            temperature_outside,
            humidity_outside,
        }
    }
}

/// One device entry of the sensor service's answer: the external device id
/// and its latest snapshot (`ts` in seconds since the Unix epoch).
#[derive(Debug)]
pub struct UpstreamEntry {
    pub deviceid: String,
    pub ts: u32,
    pub t1: i32,
    pub t2: Option<i32>,
    pub h: i32,
    pub h2: Option<i32>,
}

/// The sensor service's answer to a request for the latest readings.
#[derive(Debug)]
pub struct UpstreamResponse {
    pub devices: Vec<UpstreamEntry>,
    pub success: bool,
}

/// Why a request to the sensor service failed.
#[derive(Clone, Copy, Debug, PartialEq, Eq, Structural)]
pub enum FetchError {
    NetworkError,
    ParseError,
}

/// Why an operation of the store failed.
#[derive(Clone, Copy, Debug, PartialEq, Eq, Structural)]
pub enum StoreError {
    StoreUnavailable,
    ConstraintViolation,
}

/// Why a push notification could not be sent.
#[derive(Clone, Copy, Debug, PartialEq, Eq, Structural)]
pub enum NotifyError {
    AuthError,
    NetworkError,
    ServiceError,
}

} // verus!

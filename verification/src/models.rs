//! The values the service stores and answers with.

use crate::time::Timestamp;
use vstd::prelude::*;

verus! {

/// A floating-point measurement (degrees Celsius, or percent relative
/// humidity), carried unchanged by its IEEE-754 `f64` bit pattern.  The
/// library stores and forwards readings but never computes with them.
#[derive(Clone, Copy, Debug, PartialEq, Eq, Structural)]
pub struct Reading {
    pub bits: u64,
}

/// A reading as a device sends it.  `timestamp` is the device's own clock,
/// when it sends one.
#[derive(Debug)]
pub struct TemperatureReport {
    pub device_id: String,
    pub temperature: Reading,
    pub humidity: Option<Reading>,
    pub timestamp: Option<Timestamp>,
}

/// A stored reading.  `timestamp` is when the service received it, which is
/// also `created_at`; `client_timestamp` is the device's clock, if it sent one.
#[derive(Debug)]
pub struct TemperatureRecord {
    pub id: String,
    pub device_id: String,
    pub temperature: Reading,
    pub humidity: Option<Reading>,
    pub timestamp: Timestamp,
    pub client_timestamp: Option<Timestamp>,
    pub created_at: Timestamp,
}

/// The summary of one device's readings over one UTC hour.
#[derive(Debug)]
pub struct HourlyTemperature {
    pub id: String,
    pub device_id: String,
    pub hour_start: Timestamp,
    pub avg_temp: Reading,
    pub min_temp: Reading,
    pub max_temp: Reading,
    pub sample_count: i64,
    pub avg_humidity: Option<Reading>,
}

/// Filters of an hourly-summary query, once parsed.
#[derive(Debug)]
pub struct HourlyQueryParams {
    pub device_id: Option<String>,
    pub start_time: Option<Timestamp>,
    pub end_time: Option<Timestamp>,
}

/// Filters of an hourly-summary query as they arrive in the query string:
/// the times are RFC 3339 texts.
#[derive(Debug)]
pub struct HourlyQuery {
    pub device_id: Option<String>,
    pub start_time: Option<String>,
    pub end_time: Option<String>,
}

/// The admissible temperature band of one device, as a client asks for it.
#[derive(Debug)]
pub struct DeviceTempConfigRequest {
    pub device_id: String,
    pub min_temp: Reading,
    pub max_temp: Reading,
}

/// The admissible temperature band of one device, as stored.
#[derive(Debug)]
pub struct DeviceTempConfig {
    pub id: String,
    pub device_id: String,
    pub min_temp: Reading,
    pub max_temp: Reading,
    pub created_at: Timestamp,
    pub updated_at: Timestamp,
}

/// A temperature excursion of one device, open until it is resolved.
#[derive(Debug)]
pub struct TemperatureAlert {
    pub id: String,
    pub device_id: String,
    pub alert_type: String,
    pub temperature: Reading,
    pub threshold: Reading,
    pub deviation: Reading,
    pub start_time: Timestamp,
    pub end_time: Option<Timestamp>,
    pub duration_seconds: Option<i64>,
    pub is_resolved: bool,
    pub created_at: Timestamp,
}

/// The envelope of every answer of the HTTP interface.
#[derive(Debug)]
pub struct ApiResponse<T> {
    pub success: bool,
    pub message: String,
    pub data: Option<T>,
}

impl<T> ApiResponse<T> {
    /// A successful answer that carries `data`.
    pub fn success(data: T) -> (r: Self)
        ensures
            r.success,
            r.message@ == "操作成功"@,
            r.data == Some(data),
    {
        ApiResponse { success: true, message: String::from_str("操作成功"), data: Some(data) }
    }

    /// A successful answer that carries only a message.
    pub fn success_msg(message: &str) -> (r: Self)
        ensures
            r.success,
            r.message@ == message@,
            r.data is None,
    {
        ApiResponse { success: true, message: String::from_str(message), data: None }
    }

    /// A failed answer with the reason in `message`.
    pub fn error(message: &str) -> (r: Self)
        ensures
            !r.success,
            r.message@ == message@,
            r.data is None,
    {
        ApiResponse { success: false, message: String::from_str(message), data: None }
    }
}

} // verus!

//! Device temperature bands and temperature alerts: the rows the service
//! writes for them.

use crate::ids::is_uuid_v4_text;
use crate::ids::uuid_v4_text;
use crate::models::DeviceTempConfig;
use crate::models::DeviceTempConfigRequest;
use crate::models::Reading;
use crate::models::TemperatureAlert;
use crate::time::chrono_seconds_between;
use crate::time::chrono_utc_now;
use crate::time::whole_seconds_between;
use crate::time::Timestamp;
use vstd::prelude::*;

verus! {

/// The row written for a band request made at `now`, under `id`: the
/// requested band, and `now` as both creation and update time.  (When the
/// device already has a band, storage keeps its row, identifier and creation
/// time, and takes the band and the update time from this one.)
pub fn new_device_config_at(req: &DeviceTempConfigRequest, id: String, now: Timestamp) -> (r:
    DeviceTempConfig)
    ensures
        r.id@ == id@,
        r.device_id@ == req.device_id@,
        r.min_temp == req.min_temp,
        r.max_temp == req.max_temp,
        r.created_at == now,
        r.updated_at == now,
{
    DeviceTempConfig {
        id,
        device_id: req.device_id.clone(),
        min_temp: req.min_temp,
        max_temp: req.max_temp,
        created_at: now,
        updated_at: now,
    }
}

/// The row written for a band request: a fresh random identifier and the
/// current time of the service's clock, as `new_device_config_at` builds it.
pub fn new_device_config(req: &DeviceTempConfigRequest) -> (r: DeviceTempConfig)
    ensures
        is_uuid_v4_text(r.id@),
        r.device_id@ == req.device_id@,
        r.min_temp == req.min_temp,
        r.max_temp == req.max_temp,
        r.created_at == r.updated_at,
        r.created_at.wf(),
        r.created_at.is_regular(),
        r.created_at.secs >= 0,
{
    let id = uuid_v4_text();
    let now = chrono_utc_now();
    new_device_config_at(req, id, now)
}

/// The row written when an alert opens at `now`, under `id`: the given
/// details, `now` as creation time, and no end yet.
pub fn new_alert_at(
    device_id: &str,
    alert_type: &str,
    temperature: Reading,
    threshold: Reading,
    deviation: Reading,
    start_time: Timestamp,
    id: String,
    now: Timestamp,
) -> (r: TemperatureAlert)
    ensures
        r.id@ == id@,
        r.device_id@ == device_id@,
        r.alert_type@ == alert_type@,
        r.temperature == temperature,
        r.threshold == threshold,
        r.deviation == deviation,
        r.start_time == start_time,
        r.end_time is None,
        r.duration_seconds is None,
        !r.is_resolved,
        r.created_at == now,
{
    TemperatureAlert {
        id,
        device_id: device_id.to_string(),
        alert_type: alert_type.to_string(),
        temperature,
        threshold,
        deviation,
        start_time,
        end_time: None,
        duration_seconds: None,
        is_resolved: false,
        created_at: now,
    }
}

/// The row written when an alert opens: a fresh random identifier and the
/// current time of the service's clock, as `new_alert_at` builds it.
pub fn new_alert(
    device_id: &str,
    alert_type: &str,
    temperature: Reading,
    threshold: Reading,
    deviation: Reading,
    start_time: Timestamp,
) -> (r: TemperatureAlert)
    ensures
        is_uuid_v4_text(r.id@),
        r.device_id@ == device_id@,
        r.alert_type@ == alert_type@,
        r.temperature == temperature,
        r.threshold == threshold,
        r.deviation == deviation,
        r.start_time == start_time,
        r.end_time is None,
        r.duration_seconds is None,
        !r.is_resolved,
        r.created_at.wf(),
        r.created_at.is_regular(),
        r.created_at.secs >= 0,
{
    let id = uuid_v4_text();
    let now = chrono_utc_now();
    new_alert_at(device_id, alert_type, temperature, threshold, deviation, start_time, id, now)
}

/// The alert once resolved at `end_time`: it records the end, how many whole
/// seconds it lasted (rounded toward zero), and that it is resolved; all
/// else is kept.
pub fn resolved_alert(alert: TemperatureAlert, end_time: Timestamp) -> (r: TemperatureAlert)
    requires
        alert.start_time.wf(),
        end_time.wf(),
    ensures
        r.end_time == Some(end_time),
        r.duration_seconds == Some(whole_seconds_between(alert.start_time, end_time) as i64),
        r.is_resolved,
        r.id == alert.id,
        r.device_id == alert.device_id,
        r.alert_type == alert.alert_type,
        r.temperature == alert.temperature,
        r.threshold == alert.threshold,
        r.deviation == alert.deviation,
        r.start_time == alert.start_time,
        r.created_at == alert.created_at,
{
    let duration: i64 = chrono_seconds_between(alert.start_time, end_time);
    TemperatureAlert {
        end_time: Some(end_time),
        duration_seconds: Some(duration),
        is_resolved: true,
        ..alert
    }
}

} // verus!

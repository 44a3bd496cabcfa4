use cold_chain::alerts::new_alert;
use cold_chain::alerts::new_alert_at;
use cold_chain::alerts::new_device_config_at;
use cold_chain::alerts::new_device_config;
use cold_chain::alerts::resolved_alert;
use cold_chain::models::DeviceTempConfigRequest;
use cold_chain::models::Reading;
use cold_chain::time::Timestamp;

fn reading(v: f64) -> Reading {
    Reading { bits: v.to_bits() }
}

fn ts(secs: i64, nanos: u32) -> Timestamp {
    Timestamp { secs, nanos }
}

#[test]
fn new_device_config_takes_the_band_and_the_time() {
    let req = DeviceTempConfigRequest { device_id: "f1".to_string(), min_temp: reading(2.0), max_temp: reading(8.0) };
    let c = new_device_config(&req);
    assert_eq!(c.device_id, "f1");
    assert_eq!(c.min_temp, reading(2.0));
    assert_eq!(c.max_temp, reading(8.0));
    assert_eq!(c.created_at, c.updated_at);
    assert_eq!(c.id.len(), 36);
    assert!(c.created_at.secs > 1_600_000_000);
}

#[test]
fn new_alert_is_open() {
    let a = new_alert("f1", "high", reading(9.5), reading(8.0), reading(1.5), ts(100, 0));
    assert_eq!(a.device_id, "f1");
    assert_eq!(a.alert_type, "high");
    assert_eq!(a.temperature, reading(9.5));
    assert_eq!(a.threshold, reading(8.0));
    assert_eq!(a.deviation, reading(1.5));
    assert_eq!(a.start_time, ts(100, 0));
    assert_eq!(a.end_time, None);
    assert_eq!(a.duration_seconds, None);
    assert!(!a.is_resolved);
    assert_eq!(a.id.chars().nth(14), Some('4'));
}

#[test]
fn resolved_alert_records_end_and_duration() {
    let a = new_alert("f1", "low", reading(1.0), reading(2.0), reading(-1.0), ts(1000, 0));
    let id = a.id.clone();
    let r = resolved_alert(a, ts(1090, 500_000_000));
    assert_eq!(r.end_time, Some(ts(1090, 500_000_000)));
    assert_eq!(r.duration_seconds, Some(90));
    assert!(r.is_resolved);
    assert_eq!(r.id, id);
    assert_eq!(r.start_time, ts(1000, 0));
}

#[test]
fn resolved_alert_duration_rounds_toward_zero() {
    let a = new_alert("f1", "low", reading(1.0), reading(2.0), reading(-1.0), ts(10, 500_000_000));
    let r = resolved_alert(a, ts(9, 0));
    assert_eq!(r.duration_seconds, Some(-1));
    let a = new_alert("f1", "low", reading(1.0), reading(2.0), reading(-1.0), ts(10, 0));
    let r = resolved_alert(a, ts(10, 0));
    assert_eq!(r.duration_seconds, Some(0));
}

#[test]
fn resolved_alert_duration_across_days() {
    let a = new_alert("f1", "high", reading(1.0), reading(2.0), reading(-1.0), ts(86_000, 0));
    let r = resolved_alert(a, ts(86_400 * 2 + 5, 0));
    assert_eq!(r.duration_seconds, Some(86_400 * 2 + 5 - 86_000));
}

#[test]
fn resolved_alert_duration_over_a_leap_second() {
    // From 2016-12-31T23:59:60.5Z (a leap second) to 2017-01-01T00:00:01Z:
    // across midnight the leap second is not counted, 0.5 s in all.
    let a = new_alert("f1", "high", reading(1.0), reading(2.0), reading(-1.0), ts(1_483_228_799, 1_500_000_000));
    let r = resolved_alert(a, ts(1_483_228_801, 0));
    assert_eq!(r.duration_seconds, Some(0));
    // From 23:59:58.0 to the leap second 23:59:60.5 the leap second counts: 2.5 s.
    let a = new_alert("f1", "high", reading(1.0), reading(2.0), reading(-1.0), ts(1_483_228_798, 0));
    let r = resolved_alert(a, ts(1_483_228_799, 1_500_000_000));
    assert_eq!(r.duration_seconds, Some(2));
    // From the leap second back to 23:59:58.0.
    let a = new_alert("f1", "high", reading(1.0), reading(2.0), reading(-1.0), ts(1_483_228_799, 1_500_000_000));
    let r = resolved_alert(a, ts(1_483_228_798, 0));
    assert_eq!(r.duration_seconds, Some(-2));
}

#[test]
fn resolved_alert_duration_is_antisymmetric() {
    let pairs = [(ts(10, 0), ts(75, 300)), (ts(-5, 900_000_000), ts(3, 100)), (ts(0, 0), ts(0, 0))];
    for (a, b) in pairs {
        let forward = resolved_alert(new_alert("f", "t", reading(0.0), reading(0.0), reading(0.0), a), b);
        let backward = resolved_alert(new_alert("f", "t", reading(0.0), reading(0.0), reading(0.0), b), a);
        assert_eq!(forward.duration_seconds.unwrap(), -backward.duration_seconds.unwrap());
    }
}

#[test]
fn new_device_config_at_uses_the_given_id_and_time() {
    let req = DeviceTempConfigRequest { device_id: "f2".to_string(), min_temp: reading(-20.0), max_temp: reading(-15.0) };
    let c = new_device_config_at(&req, "cfg-1".to_string(), ts(500, 9));
    assert_eq!(c.id, "cfg-1");
    assert_eq!(c.device_id, "f2");
    assert_eq!(c.min_temp, reading(-20.0));
    assert_eq!(c.max_temp, reading(-15.0));
    assert_eq!(c.created_at, ts(500, 9));
    assert_eq!(c.updated_at, ts(500, 9));
}

#[test]
fn new_alert_at_uses_the_given_id_and_time() {
    let a = new_alert_at("f3", "high", reading(9.0), reading(8.0), reading(1.0), ts(100, 0), "al-1".to_string(), ts(160, 3));
    assert_eq!(a.id, "al-1");
    assert_eq!(a.start_time, ts(100, 0));
    assert_eq!(a.created_at, ts(160, 3));
    assert!(!a.is_resolved);
    assert_eq!(a.end_time, None);
    assert_eq!(a.duration_seconds, None);
}

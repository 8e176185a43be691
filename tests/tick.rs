use window_alert::model::{
    Device, FetchError, Measurement, NewMeasurement, NotifyError, StoreError, UpstreamEntry,
    UpstreamResponse,
};
use window_alert::tick::{Action, Phase, Tick, HISTORY_LIMIT};

fn device(id: i32, external: &str, name: &str, alert: bool) -> Device {
    Device { id, device_id: external.to_string(), name: name.to_string(), alert }
}

fn registry() -> Vec<Device> {
    vec![device(1, "AA", "Wohnzimmer", true), device(2, "BB", "Keller", false)]
}

fn entry(external: &str, ts: u32, t1: i32) -> UpstreamEntry {
    UpstreamEntry { deviceid: external.to_string(), ts, t1, t2: Some(900), h: 5500, h2: None }
}

/// An in-memory store that answers the tick's requests truthfully.
struct Store {
    rows: Vec<Measurement>,
    notified: Vec<String>,
    warnings: Vec<String>,
}

impl Store {
    fn new() -> Store {
        Store { rows: Vec::new(), notified: Vec::new(), warnings: Vec::new() }
    }

    fn insert(&mut self, m: &NewMeasurement) -> Result<(), StoreError> {
        if self.rows.iter().any(|r| r.device_id == m.device_id && r.time == m.time) {
            return Err(StoreError::ConstraintViolation);
        }
        self.rows.push(Measurement {
            id: self.rows.len() as i32 + 1,
            device_id: m.device_id,
            time: m.time,
            temperature: m.temperature,
            humidity: m.humidity,
            temperature_outside: m.temperature_outside,
            humidity_outside: m.humidity_outside,
        });
        Ok(())
    }

    /// Runs a whole tick against this store with the given answer of the sensor service.
    fn run(&mut self, response: Result<UpstreamResponse, FetchError>) -> Tick {
        let mut tick = Tick::new();
        let mut action = tick.on_devices(Ok(registry()), "PHONE");
        let mut response = Some(response);
        loop {
            action = match action {
                Action::Fetch { body } => {
                    assert_eq!(body, "phoneid=PHONE&deviceids=AA,BB");
                    tick.on_fetched(response.take().unwrap())
                }
                Action::CheckExists { device_id, time } => {
                    let exists = self.rows.iter().any(|r| r.device_id == device_id && r.time == time);
                    tick.on_exists(Ok(exists))
                }
                Action::Insert { measurement } => {
                    let r = self.insert(&measurement);
                    tick.on_inserted(r)
                }
                Action::LoadHistory { device_ids, limit } => {
                    assert_eq!(limit, HISTORY_LIMIT);
                    let mut rows: Vec<Measurement> =
                        self.rows.iter().filter(|r| device_ids.contains(&r.device_id)).copied().collect();
                    rows.sort_by(|a, b| b.time.cmp(&a.time));
                    tick.on_history(Ok(rows))
                }
                Action::Notify { device_name, message, .. } => {
                    assert_eq!(message, format!("Das Fenster im {} ist noch offen", device_name));
                    self.notified.push(device_name);
                    tick.on_notified(Ok(()))
                }
                Action::Finish => break,
            };
        }
        for k in &tick.unmatched {
            self.warnings.push(tick.entries[*k].deviceid.clone());
        }
        assert_eq!(tick.phase, Phase::Finished);
        tick
    }
}

fn ok_response(entries: Vec<UpstreamEntry>) -> Result<UpstreamResponse, FetchError> {
    Ok(UpstreamResponse { devices: entries, success: true })
}

#[test]
fn same_reading_twice_is_stored_once() {
    let mut store = Store::new();
    store.run(ok_response(vec![entry("AA", 1000, 2000)]));
    store.run(ok_response(vec![entry("AA", 1000, 2000)]));
    assert_eq!(store.rows.len(), 1);
    assert_eq!(store.rows[0].device_id, 1);
    assert_eq!(store.rows[0].time, 1000);
    assert_eq!(store.rows[0].temperature, 2000);
    assert_eq!(store.rows[0].temperature_outside, Some(900));
}

#[test]
fn unmatched_entry_is_reported_and_others_processed() {
    let mut store = Store::new();
    let tick = store.run(ok_response(vec![entry("AA", 1000, 2000), entry("ZZ", 1000, 2000), entry("BB", 1000, 1500)]));
    assert_eq!(tick.unmatched, vec![1]);
    assert_eq!(store.warnings, vec!["ZZ".to_string()]);
    assert_eq!(store.rows.len(), 2);
    assert_eq!(store.rows[1].device_id, 2);
}

#[test]
fn unsuccessful_answer_is_a_no_op() {
    let mut store = Store::new();
    let tick = store.run(Ok(UpstreamResponse { devices: vec![entry("AA", 1000, 2000)], success: false }));
    assert!(store.rows.is_empty());
    assert!(tick.to_check.is_empty());
    assert!(store.notified.is_empty());
}

#[test]
fn failed_fetch_ends_tick() {
    let mut store = Store::new();
    store.run(Err(FetchError::NetworkError));
    store.run(Err(FetchError::ParseError));
    assert!(store.rows.is_empty());
}

#[test]
fn rising_temperature_notifies_alert_devices_only() {
    let mut store = Store::new();
    store.run(ok_response(vec![entry("AA", 1000, 1790), entry("BB", 1000, 1000)]));
    assert!(store.notified.is_empty());
    store.run(ok_response(vec![entry("AA", 1060, 2000), entry("BB", 1060, 3000)]));
    assert_eq!(store.notified, vec!["Wohnzimmer".to_string()]);
    // Nothing new arrives: no device is evaluated, so nothing is sent again.
    store.run(ok_response(vec![entry("AA", 1060, 2000)]));
    assert_eq!(store.notified.len(), 1);
    assert_eq!(store.rows.len(), 4);
}

#[test]
fn store_failures_are_handled() {
    let mut tick = Tick::new();
    assert!(matches!(tick.on_devices(Err(StoreError::StoreUnavailable), "P"), Action::Finish));
    assert_eq!(tick.phase, Phase::Finished);

    let mut tick = Tick::new();
    tick.on_devices(Ok(registry()), "P");
    let a = tick.on_fetched(ok_response(vec![entry("AA", 1, 2000), entry("BB", 2, 2000)]));
    assert!(matches!(a, Action::CheckExists { device_id: 1, time: 1 }));
    // A failed existence check passes over the entry.
    let a = tick.on_exists(Err(StoreError::StoreUnavailable));
    assert!(matches!(a, Action::CheckExists { device_id: 2, time: 2 }));
    let a = tick.on_exists(Ok(false));
    assert!(matches!(a, Action::Insert { .. }));
    // A failed insert marks nothing for checking.
    let a = tick.on_inserted(Err(StoreError::ConstraintViolation));
    assert!(matches!(a, Action::Finish));
    assert!(tick.to_check.is_empty());
}

#[test]
fn failed_notification_moves_on() {
    let mut tick = Tick::new();
    tick.on_devices(Ok(vec![device(1, "AA", "Bad", true), device(2, "BB", "Flur", true)]), "P");
    let a = tick.on_fetched(ok_response(vec![entry("AA", 5, 2500), entry("BB", 5, 2600)]));
    assert!(matches!(a, Action::CheckExists { .. }));
    tick.on_exists(Ok(false));
    tick.on_inserted(Ok(()));
    tick.on_exists(Ok(false));
    let a = tick.on_inserted(Ok(()));
    match a {
        Action::LoadHistory { device_ids, limit } => {
            assert_eq!(device_ids, vec![1, 2]);
            assert_eq!(limit, 3);
        }
        _ => panic!("expected a history request"),
    }
    let row = |id: i32, device_id: i32, time: i64, temperature: i32| Measurement {
        id,
        device_id,
        time,
        temperature,
        humidity: 0,
        temperature_outside: None,
        humidity_outside: None,
    };
    let rows = vec![row(1, 1, 5, 2500), row(2, 2, 5, 2600), row(3, 1, 4, 2300), row(4, 2, 4, 2400)];
    let a = tick.on_history(Ok(rows));
    match a {
        Action::Notify { device_name, trigger, .. } => {
            assert_eq!(device_name, "Bad");
            assert_eq!(trigger, 1);
        }
        _ => panic!("expected a notification"),
    }
    let a = tick.on_notified(Err(NotifyError::ServiceError));
    match a {
        Action::Notify { device_name, .. } => assert_eq!(device_name, "Flur"),
        _ => panic!("expected a notification"),
    }
    assert!(matches!(tick.on_notified(Err(NotifyError::AuthError)), Action::Finish));
}

#[test]
fn failed_history_load_ends_tick() {
    let mut tick = Tick::new();
    tick.on_devices(Ok(registry()), "P");
    tick.on_fetched(ok_response(vec![entry("AA", 5, 2500)]));
    tick.on_exists(Ok(false));
    assert!(matches!(tick.on_inserted(Ok(())), Action::LoadHistory { .. }));
    assert!(matches!(tick.on_history(Err(StoreError::StoreUnavailable)), Action::Finish));
    assert_eq!(tick.phase, Phase::Finished);
}

use window_alert::model::Device;
use window_alert::request::{device_ids_joined, find_device, notification_message, request_body};

fn device(id: i32, external: &str, name: &str, alert: bool) -> Device {
    Device { id, device_id: external.to_string(), name: name.to_string(), alert }
}

#[test]
fn joins_ids_with_commas() {
    let devices = vec![device(1, "A1", "Kueche", true), device(2, "B2", "Bad", false), device(3, "C3", "Flur", true)];
    assert_eq!(device_ids_joined(&devices), "A1,B2,C3");
    assert_eq!(device_ids_joined(&devices[..1].iter().map(|d| device(d.id, &d.device_id, &d.name, d.alert)).collect()), "A1");
    assert_eq!(device_ids_joined(&Vec::new()), "");
}

#[test]
fn builds_request_body() {
    let devices = vec![device(1, "A1", "Kueche", true), device(2, "B2", "Bad", false)];
    assert_eq!(request_body("PHONE", &devices), "phoneid=PHONE&deviceids=A1,B2");
    assert_eq!(request_body("P", &Vec::new()), "phoneid=P&deviceids=");
}

#[test]
fn builds_notification_message() {
    assert_eq!(notification_message("Bad"), "Das Fenster im Bad ist noch offen");
}

#[test]
fn finds_first_device_with_external_id() {
    let devices = vec![device(1, "A1", "Kueche", true), device(2, "B2", "Bad", false), device(3, "B2", "Flur", true)];
    assert_eq!(find_device(&devices, &"B2".to_string()), Some(1));
    assert_eq!(find_device(&devices, &"A1".to_string()), Some(0));
    assert_eq!(find_device(&devices, &"ZZ".to_string()), None);
    assert_eq!(find_device(&Vec::new(), &"A1".to_string()), None);
}

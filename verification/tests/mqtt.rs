use esp32_sensors::mqtt::{
    build_status_action, build_telemetry_action, status_json, CapacityExceeded, DeviceStatus,
    Payload, QualityOfService, PAYLOAD_CAPACITY,
};

fn status(firmware: &str) -> DeviceStatus<'_> {
    DeviceStatus {
        online: true,
        rssi_dbm: Some(-61),
        uptime_s: 360,
        firmware,
        mac: Some([0xA4, 0xCF, 0x12, 0x0B, 0x3E, 0xF0]),
        ip: Some([192, 168, 1, 42]),
    }
}

#[test]
fn writes_full_status() {
    assert_eq!(
        status_json(&status("mqtt_sht31 0.1.0")),
        r#"{"online":true,"rssi_dbm":-61,"uptime_s":360,"firmware":"mqtt_sht31 0.1.0","mac":"A4:CF:12:0B:3E:F0","ip":"192.168.1.42"}"#
    );
}

#[test]
fn writes_missing_fields_as_null() {
    let status = DeviceStatus {
        online: false,
        rssi_dbm: None,
        uptime_s: 0,
        firmware: "fw",
        mac: None,
        ip: None,
    };
    assert_eq!(
        status_json(&status),
        r#"{"online":false,"rssi_dbm":null,"uptime_s":0,"firmware":"fw","ip":null}"#
    );
}

#[test]
fn status_action_is_retained_at_least_once() {
    let action = build_status_action("sensors/esp32/status", &status("fw 1.0")).unwrap();
    assert_eq!(action.topic, "sensors/esp32/status");
    assert_eq!(action.qos, QualityOfService::Qos1);
    assert!(action.retain);
    assert_eq!(action.payload.as_str(), status_json(&status("fw 1.0")));
}

#[test]
fn status_too_long_for_payload_fails() {
    let long_firmware = "x".repeat(200);
    assert!(build_status_action("t", &status(&long_firmware)).is_err());
    let fits = "x".repeat(PAYLOAD_CAPACITY - status_json(&status("")).len());
    let action = build_status_action("t", &status(&fits)).unwrap();
    assert_eq!(action.payload.as_str().len(), PAYLOAD_CAPACITY);
    let too_long = format!("{fits}y");
    assert!(build_status_action("t", &status(&too_long)).is_err());
}

#[test]
fn capacity_counts_bytes() {
    let two_byte_chars = "é".repeat(128);
    assert!(Payload::from_text(&two_byte_chars).is_ok());
    let too_many = "é".repeat(129);
    assert_eq!(Payload::from_text(&too_many).err(), Some(CapacityExceeded));
    assert_eq!(Payload::from_text("").unwrap().as_str(), "");
}

#[test]
fn telemetry_action_is_not_retained() {
    let text = r#"{"temperature_c":21.50,"humidity_pct":40.25}"#;
    let action = build_telemetry_action("sensors/esp32/temperature", text).unwrap();
    assert_eq!(action.payload.as_str(), text);
    assert!(!action.retain);
    assert_eq!(action.qos, QualityOfService::Qos1);
}

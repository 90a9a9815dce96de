use esplink::codec::{
    extract_json_bool, extract_json_number, extract_json_string, Command, ParamError,
};
use esplink::encode::{
    encode_button_event, encode_card_event, encode_command, encode_heartbeat,
    encode_sensor_data, encode_status, ArrayWriter, EncodeError,
};

fn full_command() -> Command {
    Command {
        from: String::from("esp32-sensor-01"),
        to: String::from("esp32-actuator-01"),
        command: String::from("BUZZER"),
        led_id: Some(2),
        duration: Some(750),
        emergency: Some(false),
        security: Some(String::from("validated")),
    }
}

#[test]
fn decode_reads_all_fields() {
    let payload = r#"{"from":"esp32-sensor-01","to":"esp32-actuator-01","command":"LED_ON","led_id":3,"duration":1000,"emergency":true,"security":"validated"}"#;
    let c = Command::from_json(payload).unwrap();
    assert_eq!(c.from, "esp32-sensor-01");
    assert_eq!(c.to, "esp32-actuator-01");
    assert_eq!(c.command, "LED_ON");
    assert_eq!(c.led_id, Some(3));
    assert_eq!(c.duration, Some(1000));
    assert_eq!(c.emergency, Some(true));
    assert_eq!(c.security, Some(String::from("validated")));
}

#[test]
fn decode_missing_command_yields_none() {
    let payload = r#"{"from":"a","to":"b","led_id":1}"#;
    assert!(Command::from_json(payload).is_none());
}

#[test]
fn decode_missing_from_yields_none() {
    let payload = r#"{"to":"b","command":"LED_ON"}"#;
    assert!(Command::from_json(payload).is_none());
}

#[test]
fn decode_tolerates_reversed_field_order() {
    let payload = r#"{"led_id":1,"command":"LED_TOGGLE","to":"esp32-actuator-01","from":"esp32-sensor-01"}"#;
    let c = Command::from_json(payload).unwrap();
    assert_eq!(c.command, "LED_TOGGLE");
    assert_eq!(c.led_id, Some(1));
    assert_eq!(c.from, "esp32-sensor-01");
}

#[test]
fn decode_tolerates_unknown_fields_and_bad_optionals() {
    let payload = r#"{"from":"a","extra":42,"to":"b","command":"LED_ON","led_id":"three"}"#;
    let c = Command::from_json(payload).unwrap();
    // "three" holds no digits, so the optional field resolves to absent.
    assert_eq!(c.led_id, None);
    assert_eq!(c.duration, None);
    assert_eq!(c.emergency, None);
}

#[test]
fn extract_string_finds_value() {
    let j = r#"{"name":"hello","n":5}"#;
    assert_eq!(extract_json_string(j, "name"), Some(String::from("hello")));
    assert_eq!(extract_json_string(j, "missing"), None);
}

#[test]
fn extract_number_reads_digit_run() {
    let j = r#"{"n":  123,"m":7}"#;
    assert_eq!(extract_json_number(j, "n"), Some(123));
    assert_eq!(extract_json_number(j, "m"), Some(7));
    assert_eq!(extract_json_number(j, "q"), None);
}

#[test]
fn extract_number_overflow_yields_none() {
    let j = r#"{"n":99999999999}"#;
    assert_eq!(extract_json_number(j, "n"), None);
}

#[test]
fn extract_number_at_limit() {
    let j = r#"{"n":4294967295,"m":4294967296}"#;
    assert_eq!(extract_json_number(j, "n"), Some(4294967295));
}

#[test]
fn extract_bool_reads_literals() {
    let j = r#"{"a":true,"b": false,"c":"x"}"#;
    assert_eq!(extract_json_bool(j, "a"), Some(true));
    assert_eq!(extract_json_bool(j, "b"), Some(false));
    assert_eq!(extract_json_bool(j, "c"), None);
    assert_eq!(extract_json_bool(j, "d"), None);
}

#[test]
fn extract_bool_skips_unicode_whitespace() {
    // A no-break space and an em space before the literal are trimmed,
    // like any other whitespace.
    let j = "{\"a\":\u{00A0}true,\"b\":\u{2003}\tfalse}";
    assert_eq!(extract_json_bool(j, "a"), Some(true));
    assert_eq!(extract_json_bool(j, "b"), Some(false));
}

#[test]
fn encode_writes_fields_in_fixed_order() {
    let c = full_command();
    let s = encode_command(&c, 200).unwrap();
    assert_eq!(
        s,
        r#"{"from":"esp32-sensor-01","to":"esp32-actuator-01","command":"BUZZER","led_id":2,"duration":750,"emergency":false,"security":"validated"}"#
    );
}

#[test]
fn encode_omits_absent_optionals() {
    let c = Command {
        from: String::from("a"),
        to: String::from("b"),
        command: String::from("ACKNOWLEDGE"),
        led_id: None,
        duration: None,
        emergency: None,
        security: None,
    };
    let s = encode_command(&c, 100).unwrap();
    assert_eq!(s, r#"{"from":"a","to":"b","command":"ACKNOWLEDGE"}"#);
}

#[test]
fn encode_rejects_too_small_capacity() {
    let c = full_command();
    assert_eq!(encode_command(&c, 10), Err(EncodeError::BufferTooSmall));
}

#[test]
fn encode_then_decode_reproduces_fields() {
    let c = full_command();
    let s = encode_command(&c, 200).unwrap();
    let d = Command::from_json(&s).unwrap();
    assert_eq!(d.from, c.from);
    assert_eq!(d.to, c.to);
    assert_eq!(d.command, c.command);
    assert_eq!(d.led_id, c.led_id);
    assert_eq!(d.duration, c.duration);
    assert_eq!(d.emergency, c.emergency);
    assert_eq!(d.security, c.security);
}

#[test]
fn encode_then_decode_with_emergency_true() {
    let mut c = full_command();
    c.emergency = Some(true);
    c.led_id = Some(255);
    let s = encode_command(&c, 200).unwrap();
    let d = Command::from_json(&s).unwrap();
    assert_eq!(d.emergency, Some(true));
    assert_eq!(d.led_id, Some(255));
}

#[test]
fn validate_parameters_checks_ranges() {
    let mut c = full_command();
    assert_eq!(c.validate_parameters(), Ok(()));
    c.led_id = Some(0);
    assert_eq!(c.validate_parameters(), Err(ParamError::LedIdOutOfRange));
    c.led_id = Some(4);
    assert_eq!(c.validate_parameters(), Err(ParamError::LedIdOutOfRange));
    c.led_id = Some(3);
    c.duration = Some(10001);
    assert_eq!(c.validate_parameters(), Err(ParamError::DurationTooLong));
    c.duration = Some(49);
    assert_eq!(c.validate_parameters(), Err(ParamError::DurationTooShort));
    c.duration = Some(50);
    assert_eq!(c.validate_parameters(), Ok(()));
    c.led_id = None;
    c.duration = None;
    assert_eq!(c.validate_parameters(), Ok(()));
}

#[test]
fn button_event_payload_is_exact() {
    let s = encode_button_event("esp32-sensor-01", 2, 123456);
    assert_eq!(
        s,
        r#"{"device":"esp32-sensor-01","button_id":2,"action":"pressed","timestamp":123456}"#
    );
}

#[test]
fn card_event_payload_uses_uppercase_hex() {
    let uid = [0xDE, 0xAD, 0xBE, 0xEF, 0x00];
    let s = encode_card_event("esp32-sensor-01", &uid, 7);
    assert_eq!(s, r#"{"device":"esp32-sensor-01","uid":"DEADBEEF","count":7}"#);
}

#[test]
fn card_event_pads_low_bytes() {
    let uid = [0x01, 0x0A, 0x00, 0xF0, 0x00];
    let s = encode_card_event("d", &uid, 0);
    assert_eq!(s, r#"{"device":"d","uid":"010A00F0","count":0}"#);
}

#[test]
fn status_payload_is_exact() {
    let s = encode_status("esp32-actuator-01", true, false, true, 99);
    assert_eq!(
        s,
        r#"{"device":"esp32-actuator-01","led1":true,"led2":false,"led3":true,"timestamp":99}"#
    );
}

#[test]
fn heartbeat_payload_is_exact() {
    let s = encode_heartbeat("esp32-actuator-01", 3600);
    assert_eq!(
        s,
        r#"{"device":"esp32-actuator-01","status":"online","uptime":3600}"#
    );
}

#[test]
fn sensor_data_payload_writes_one_decimal() {
    let s = encode_sensor_data("esp32-sensor-01", 235, 500);
    assert_eq!(
        s,
        r#"{"device":"esp32-sensor-01","temp":23.5,"hum":0.0,"timestamp":500}"#
    );
}

#[test]
fn array_writer_appends_until_capacity() {
    let mut w = ArrayWriter::new(10);
    assert_eq!(w.pos(), 0);
    assert_eq!(w.write_str("hello"), Ok(()));
    assert_eq!(w.pos(), 5);
    assert_eq!(w.write_str(" you!"), Ok(()));
    assert_eq!(w.pos(), 10);
    assert_eq!(w.write_str("x"), Err(EncodeError::BufferTooSmall));
    assert_eq!(w.pos(), 10);
    assert_eq!(w.into_bytes(), b"hello you!".to_vec());
}

#[test]
fn array_writer_rejects_oversized_write_unchanged() {
    let mut w = ArrayWriter::new(3);
    assert_eq!(w.write_str("abcd"), Err(EncodeError::BufferTooSmall));
    assert_eq!(w.pos(), 0);
    assert_eq!(w.write_str("ab"), Ok(()));
    assert_eq!(w.into_bytes(), b"ab".to_vec());
}

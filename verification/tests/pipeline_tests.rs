use esplink::buttons::ButtonManager;
use esplink::codec::Command;
use esplink::config::{ConfigError, SecurityConfig};
use esplink::dispatcher::{
    BuzzerController, CommandDispatcher, DispatchSuccess, LedController, SimBuzzerPort,
    SimLedPort,
};
use esplink::encode::encode_status;
use esplink::queue::{ingest, CommandQueue};
use esplink::sensor::{filtered_average, temp_in_range, temp_tenths_from_reading};
use esplink::text::{contains_sub, find_sub, starts_with_sub, str_eq};

#[test]
fn end_to_end_toggle_flips_led_and_status_reflects_it() {
    // A command published on the bus reaches the ingestion context...
    let payload = r#"{"from":"node-sensor-01","to":"node-actuator-01","command":"LED_TOGGLE","led_id":1}"#;
    let c = ingest(payload, "node-actuator-01", "node-actuator-01-secure").unwrap();

    // ...is enqueued, drained by the control context...
    let mut q = CommandQueue::new();
    q.push(c);
    let batch = q.drain();
    assert_eq!(batch.len(), 1);
    assert!(q.is_empty());

    // ...and dispatched against the actuator.
    let mut d = CommandDispatcher::new(
        LedController::new(SimLedPort::new()),
        BuzzerController::new(SimBuzzerPort::new()),
    );
    let now: u64 = 2000;
    assert_eq!(
        d.dispatch(&batch[0], now),
        Ok(DispatchSuccess::LedSet { led_id: 1, on: true })
    );
    assert!(d.leds.get_state(1));

    // The next status payload reflects the flipped boolean.
    let status = encode_status(
        "node-actuator-01",
        d.leds.get_state(1),
        d.leds.get_state(2),
        d.leds.get_state(3),
        now,
    );
    assert_eq!(
        status,
        r#"{"device":"node-actuator-01","led1":true,"led2":false,"led3":false,"timestamp":2000}"#
    );
}

#[test]
fn ingest_drops_commands_for_other_devices() {
    let payload = r#"{"from":"a","to":"someone-else","command":"LED_ON","led_id":1}"#;
    assert!(ingest(payload, "node-actuator-01", "node-actuator-01-secure").is_none());
}

#[test]
fn ingest_accepts_the_device_alias() {
    let payload = r#"{"from":"a","to":"node-actuator-01-secure","command":"LED_ON","led_id":1}"#;
    assert!(ingest(payload, "node-actuator-01", "node-actuator-01-secure").is_some());
}

#[test]
fn ingest_drops_malformed_payloads() {
    assert!(ingest("not json at all", "d", "d2").is_none());
    assert!(ingest(r#"{"from":"a","to":"d"}"#, "d", "d2").is_none());
}

#[test]
fn ingest_drops_out_of_range_parameters() {
    let payload = r#"{"from":"a","to":"d","command":"LED_ON","led_id":9}"#;
    assert!(ingest(payload, "d", "d2").is_none());
    let payload2 = r#"{"from":"a","to":"d","command":"BUZZER","duration":20000}"#;
    assert!(ingest(payload2, "d", "d2").is_none());
}

#[test]
fn queue_drains_in_fifo_order() {
    let mut q = CommandQueue::new();
    for name in ["LED_ON", "LED_OFF", "BUZZER"] {
        q.push(Command {
            from: String::from("a"),
            to: String::from("b"),
            command: String::from(name),
            led_id: None,
            duration: None,
            emergency: None,
            security: None,
        });
    }
    assert_eq!(q.len(), 3);
    let batch = q.drain();
    assert_eq!(q.len(), 0);
    let names: Vec<&str> = batch.iter().map(|c| c.command.as_str()).collect();
    assert_eq!(names, vec!["LED_ON", "LED_OFF", "BUZZER"]);
    // Draining again yields nothing: the batch was taken atomically.
    assert!(q.drain().is_empty());
}

#[test]
fn config_requires_every_credential() {
    let ok = SecurityConfig::load_from_env(
        Some(String::from("net")),
        Some(String::from("pw")),
        Some(String::from("broker.example")),
        Some(String::from("user")),
        Some(String::from("mqttpw")),
        Some(String::from("node-actuator-01")),
        60,
    );
    let c = ok.unwrap();
    assert_eq!(c.device_id, "node-actuator-01");
    assert_eq!(c.max_command_rate, 60);

    let missing = SecurityConfig::load_from_env(
        Some(String::from("net")),
        None,
        Some(String::from("broker.example")),
        Some(String::from("user")),
        Some(String::from("mqttpw")),
        Some(String::from("node-actuator-01")),
        60,
    );
    assert_eq!(missing.err(), Some(ConfigError::MissingCredential));

    let empty = SecurityConfig::load_from_env(
        Some(String::from("net")),
        Some(String::from("")),
        Some(String::from("broker.example")),
        Some(String::from("user")),
        Some(String::from("mqttpw")),
        Some(String::from("node-actuator-01")),
        60,
    );
    assert_eq!(empty.err(), Some(ConfigError::MissingCredential));
}

#[test]
fn buttons_report_first_fresh_press() {
    let mut b = ButtonManager::new(3, 200);
    let none_pressed = vec![false, false, false];
    let second_pressed = vec![false, true, false];
    assert_eq!(b.check_buttons(&second_pressed, 1000), Some(2));
    // Held down: no new edge.
    assert_eq!(b.check_buttons(&second_pressed, 1050), None);
    // Released, then pressed again inside the debounce window: swallowed.
    assert_eq!(b.check_buttons(&none_pressed, 1100), None);
    assert_eq!(b.check_buttons(&second_pressed, 1150), None);
    // Released and pressed outside the window: reported again.
    assert_eq!(b.check_buttons(&none_pressed, 1250), None);
    assert_eq!(b.check_buttons(&second_pressed, 1300), Some(2));
}

#[test]
fn buttons_prefer_the_lowest_index() {
    let mut b = ButtonManager::new(3, 0);
    let all = vec![true, true, true];
    assert_eq!(b.check_buttons(&all, 1000), Some(1));
    // The scan stopped at button 1, so buttons 2 and 3 still show a fresh
    // edge on the next scan.
    assert_eq!(b.check_buttons(&all, 1100), Some(2));
    assert_eq!(b.check_buttons(&all, 1200), Some(3));
    assert_eq!(b.check_buttons(&all, 1300), None);
}

#[test]
fn filtered_average_discards_extremes() {
    // Sorted middle three of 100, 90, 110, 4000, 0 are 90, 100, 110.
    assert_eq!(filtered_average(&[100, 90, 110, 4000, 0]), 100);
    assert_eq!(filtered_average(&[7, 7, 7, 7, 7]), 7);
    assert_eq!(filtered_average(&[1, 2, 3, 4, 5]), 3);
}

#[test]
fn temperature_scaling_to_tenths() {
    // A 12-bit reading against 3.3 volts: full scale is 330.0 degrees.
    assert_eq!(temp_tenths_from_reading(0), 0);
    assert_eq!(temp_tenths_from_reading(4095), 3300);
    // 292 counts is roughly 23.5 degrees on an LM35.
    assert_eq!(temp_tenths_from_reading(292), 235);
    assert!(temp_in_range(235));
    assert!(!temp_in_range(601));
}

#[test]
fn text_scanning_primitives() {
    assert_eq!(find_sub("hello world", "o w"), Some(4));
    assert_eq!(find_sub("hello", "xyz"), None);
    assert_eq!(find_sub("aaa", "aa"), Some(0));
    assert!(contains_sub("esp32-sensor-01", "sensor"));
    assert!(!contains_sub("esp32-sensor-01", "actuator"));
    assert!(starts_with_sub("telegram-bot-7", "telegram-bot"));
    assert!(!starts_with_sub("bot-telegram", "telegram"));
    assert!(str_eq("BUZZER", "BUZZER"));
    assert!(!str_eq("BUZZER", "BUZZER_TRIPLE"));
}

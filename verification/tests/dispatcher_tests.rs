use esplink::codec::Command;
use esplink::dispatcher::{
    BuzzerController, BuzzerError, CommandDispatcher, DispatchError, DispatchSuccess,
    LedController, LedError, SimBuzzerPort, SimLedPort,
};

fn cmd(name: &str, led_id: Option<u8>, duration: Option<u64>, emergency: Option<bool>) -> Command {
    Command {
        from: String::from("esp32-sensor-01"),
        to: String::from("esp32-actuator-01"),
        command: String::from(name),
        led_id,
        duration,
        emergency,
        security: None,
    }
}

fn dispatcher() -> CommandDispatcher<SimLedPort, SimBuzzerPort> {
    CommandDispatcher::new(
        LedController::new(SimLedPort::new()),
        BuzzerController::new(SimBuzzerPort::new()),
    )
}

#[test]
fn led_set_enforces_cooldown_under_one_second() {
    let mut leds = LedController::new(SimLedPort::new());
    assert_eq!(leds.set_led(1, true, 1000), Ok(()));
    // Less than 1000 ms later: rejected, state kept.
    assert_eq!(leds.set_led(1, false, 1500), Err(LedError::CooldownActive));
    assert!(leds.get_state(1));
    // A full second later: accepted.
    assert_eq!(leds.set_led(1, false, 2000), Ok(()));
    assert!(!leds.get_state(1));
}

#[test]
fn led_cooldowns_are_per_resource() {
    let mut leds = LedController::new(SimLedPort::new());
    assert_eq!(leds.set_led(1, true, 1000), Ok(()));
    assert_eq!(leds.set_led(2, true, 1001), Ok(()));
    assert_eq!(leds.set_led(3, true, 1002), Ok(()));
}

#[test]
fn led_rejects_out_of_range_id() {
    let mut leds = LedController::new(SimLedPort::new());
    assert_eq!(leds.set_led(0, true, 5000), Err(LedError::InvalidId));
    assert_eq!(leds.set_led(4, true, 5000), Err(LedError::InvalidId));
    assert!(!leds.get_state(0));
    assert!(!leds.get_state(4));
}

#[test]
fn toggle_returns_new_state() {
    let mut leds = LedController::new(SimLedPort::new());
    assert_eq!(leds.toggle_led(2, 1000), Ok(true));
    assert_eq!(leds.toggle_led(2, 1500), Err(LedError::CooldownActive));
    assert_eq!(leds.toggle_led(2, 2500), Ok(false));
}

#[test]
fn emergency_shutdown_succeeds_during_cooldown_and_resets_it() {
    let mut leds = LedController::new(SimLedPort::new());
    assert_eq!(leds.set_led(1, true, 5000), Ok(()));
    // Immediately after a cooldown-triggering change: the emergency path
    // has no failure case.
    leds.emergency_shutdown();
    assert!(!leds.get_state(1));
    assert!(!leds.get_state(2));
    assert!(!leds.get_state(3));
    // The cooldown stamp is zero again, so the very next normal change on
    // the same LED is accepted.
    assert_eq!(leds.set_led(1, true, 5001), Ok(()));
}

#[test]
fn buzzer_checks_cooldown_daily_cap_and_ranges() {
    let mut b = BuzzerController::new(SimBuzzerPort::new());
    assert_eq!(b.beep(1000, 500, 5000), Ok(()));
    assert_eq!(b.beep(1000, 500, 6000), Err(BuzzerError::CooldownActive));
    assert_eq!(b.beep(99, 500, 8000), Err(BuzzerError::FrequencyOutOfRange));
    assert_eq!(b.beep(5001, 500, 8000), Err(BuzzerError::FrequencyOutOfRange));
    assert_eq!(b.beep(1000, 5001, 8000), Err(BuzzerError::DurationTooLong));
    assert_eq!(b.beep(100, 5000, 8000), Ok(()));
}

#[test]
fn buzzer_daily_limit_blocks_after_a_thousand() {
    let mut b = BuzzerController::new(SimBuzzerPort::new());
    let mut now: u64 = 10_000;
    for _ in 0..1000 {
        assert_eq!(b.beep(1000, 50, now), Ok(()));
        now += 3000;
    }
    assert_eq!(b.beep(1000, 50, now), Err(BuzzerError::DailyLimitExceeded));
    b.reset_daily_count();
    assert_eq!(b.beep(1000, 50, now), Ok(()));
}

#[test]
fn triple_beep_reports_cooldown_after_its_first_beep() {
    let mut b = BuzzerController::new(SimBuzzerPort::new());
    // The first beep sounds and stamps the cooldown; the second attempt in
    // the same call then reports it.
    assert_eq!(b.triple_beep(5000), Err(BuzzerError::CooldownActive));
    assert_eq!(b.daily_beep_count, 1);
}

#[test]
fn emergency_beep_always_succeeds_and_resets_cooldown() {
    let mut b = BuzzerController::new(SimBuzzerPort::new());
    assert_eq!(b.beep(1000, 500, 5000), Ok(()));
    // Immediately after a normal beep the cooldown is in force; the
    // emergency beep still succeeds and zeroes the stamp.
    assert_eq!(b.emergency_beep(), Ok(()));
    assert_eq!(b.daily_beep_count, 1);
    assert_eq!(b.last_beep_time, 0);
    // The next normal beep is eligible at once.
    assert_eq!(b.beep(1000, 500, 5100), Ok(()));
}

#[test]
fn startup_sound_consumes_no_budget() {
    let mut b = BuzzerController::new(SimBuzzerPort::new());
    b.startup_sound();
    assert_eq!(b.daily_beep_count, 0);
    assert_eq!(b.last_beep_time, 0);
}

#[test]
fn dispatch_led_on_second_call_within_cooldown_rejected() {
    let mut d = dispatcher();
    let c = cmd("LED_ON", Some(1), None, None);
    assert_eq!(
        d.dispatch(&c, 1000),
        Ok(DispatchSuccess::LedSet { led_id: 1, on: true })
    );
    assert_eq!(
        d.dispatch(&c, 1900),
        Err(DispatchError::Led(LedError::CooldownActive))
    );
    assert_eq!(
        d.dispatch(&c, 2000),
        Ok(DispatchSuccess::LedSet { led_id: 1, on: true })
    );
}

#[test]
fn dispatch_led_commands_need_an_id() {
    let mut d = dispatcher();
    assert_eq!(
        d.dispatch(&cmd("LED_ON", None, None, None), 1000),
        Err(DispatchError::MissingLedId)
    );
    assert_eq!(
        d.dispatch(&cmd("LED_TOGGLE", None, None, None), 1000),
        Err(DispatchError::MissingLedId)
    );
}

#[test]
fn dispatch_toggle_flips_state() {
    let mut d = dispatcher();
    let c = cmd("LED_TOGGLE", Some(2), None, None);
    assert_eq!(
        d.dispatch(&c, 1000),
        Ok(DispatchSuccess::LedSet { led_id: 2, on: true })
    );
    assert_eq!(
        d.dispatch(&c, 3000),
        Ok(DispatchSuccess::LedSet { led_id: 2, on: false })
    );
}

#[test]
fn dispatch_emergency_shutdown_always_succeeds_and_resets_cooldown() {
    let mut d = dispatcher();
    assert_eq!(
        d.dispatch(&cmd("LED_ON", Some(1), None, None), 5000),
        Ok(DispatchSuccess::LedSet { led_id: 1, on: true })
    );
    // Immediately after a normal cooldown-triggering change.
    assert_eq!(
        d.dispatch(&cmd("LED_ALL_OFF", None, None, Some(true)), 5001),
        Ok(DispatchSuccess::EmergencyShutdown)
    );
    assert!(!d.leds.get_state(1));
    // Every cooldown stamp is reset, the buzzer's included.
    assert_eq!(d.buzzer.last_beep_time, 0);
    // The next normal command on that resource succeeds immediately.
    assert_eq!(
        d.dispatch(&cmd("LED_ON", Some(1), None, None), 5002),
        Ok(DispatchSuccess::LedSet { led_id: 1, on: true })
    );
}

#[test]
fn dispatch_all_off_without_emergency_respects_cooldowns() {
    let mut d = dispatcher();
    assert_eq!(
        d.dispatch(&cmd("LED_ON", Some(1), None, None), 5000),
        Ok(DispatchSuccess::LedSet { led_id: 1, on: true })
    );
    // LED 1 is cooling down, LEDs 2 and 3 are eligible.
    assert_eq!(
        d.dispatch(&cmd("LED_ALL_OFF", None, None, None), 5500),
        Ok(DispatchSuccess::AllLedsOff)
    );
    assert!(d.leds.get_state(1));
    assert_eq!(
        d.dispatch(&cmd("LED_ALL_OFF", None, None, Some(false)), 6500),
        Ok(DispatchSuccess::AllLedsOff)
    );
    assert!(!d.leds.get_state(1));
}

#[test]
fn dispatch_all_on_drives_every_eligible_led() {
    let mut d = dispatcher();
    assert_eq!(
        d.dispatch(&cmd("LED_ALL_ON", None, None, None), 2000),
        Ok(DispatchSuccess::AllLedsOn)
    );
    assert!(d.leds.get_state(1));
    assert!(d.leds.get_state(2));
    assert!(d.leds.get_state(3));
}

#[test]
fn dispatch_buzzer_defaults_to_half_a_second() {
    let mut d = dispatcher();
    assert_eq!(
        d.dispatch(&cmd("BUZZER", None, None, None), 5000),
        Ok(DispatchSuccess::Buzzed { duration_ms: 500 })
    );
    assert_eq!(
        d.dispatch(&cmd("BUZZER", None, Some(1000), None), 5100),
        Err(DispatchError::Buzzer(BuzzerError::CooldownActive))
    );
    assert_eq!(
        d.dispatch(&cmd("BUZZER", None, Some(1000), None), 8000),
        Ok(DispatchSuccess::Buzzed { duration_ms: 1000 })
    );
}

#[test]
fn dispatch_buzzer_triple_reports_cooldown_after_one_beep() {
    let mut d = dispatcher();
    assert_eq!(
        d.dispatch(&cmd("BUZZER_TRIPLE", None, None, None), 5000),
        Err(DispatchError::Buzzer(BuzzerError::CooldownActive))
    );
    assert_eq!(d.buzzer.daily_beep_count, 1);
}

#[test]
fn dispatch_acknowledge_succeeds_even_inside_buzzer_cooldown() {
    let mut d = dispatcher();
    assert_eq!(
        d.dispatch(&cmd("BUZZER", None, None, None), 5000),
        Ok(DispatchSuccess::Buzzed { duration_ms: 500 })
    );
    // The acknowledge chirp is best effort: the outcome is success even
    // though the buzzer itself is cooling down.
    assert_eq!(
        d.dispatch(&cmd("ACKNOWLEDGE", None, None, None), 5100),
        Ok(DispatchSuccess::Acknowledged)
    );
}

#[test]
fn dispatch_unknown_command_is_not_implemented() {
    let mut d = dispatcher();
    assert_eq!(
        d.dispatch(&cmd("SELF_DESTRUCT", None, None, None), 1000),
        Err(DispatchError::NotImplemented)
    );
}

use esplink::validator::{validate_command, CommandValidator, ValidationError};

#[test]
fn whitelist_membership() {
    assert!(validate_command("LED_ON"));
    assert!(validate_command("LED_OFF"));
    assert!(validate_command("LED_TOGGLE"));
    assert!(validate_command("LED_ALL_ON"));
    assert!(validate_command("LED_ALL_OFF"));
    assert!(validate_command("BUZZER"));
    assert!(validate_command("BUZZER_TRIPLE"));
    assert!(validate_command("ACKNOWLEDGE"));
    assert!(!validate_command("SHUTDOWN_NETWORK"));
    assert!(!validate_command("led_on"));
    assert!(!validate_command(""));
}

#[test]
fn rate_limit_of_three_blocks_the_fourth_and_resets_after_a_minute() {
    let mut v = CommandValidator::new(3);
    let src = "esp32-sensor-01";
    assert_eq!(v.validate_command("LED_ON", src, 1000), Ok(()));
    assert_eq!(v.validate_command("LED_OFF", src, 1100), Ok(()));
    assert_eq!(v.validate_command("LED_TOGGLE", src, 1200), Ok(()));
    assert_eq!(
        v.validate_command("LED_ON", src, 1300),
        Err(ValidationError::RateLimitExceeded)
    );
    // Past the 60-second window the budget is fresh again.
    assert_eq!(v.validate_command("LED_ON", src, 62000), Ok(()));
}

#[test]
fn rate_limit_counts_even_rejected_floods() {
    // The rate limit is checked before the whitelist, so invalid commands
    // cannot be used to probe without spending budget... they are rejected
    // for their own reason but the budget only falls to accepted ones.
    let mut v = CommandValidator::new(1);
    let src = "esp32-sensor-01";
    assert_eq!(
        v.validate_command("NOT_A_COMMAND", src, 10),
        Err(ValidationError::UnknownCommand)
    );
    assert_eq!(v.validate_command("LED_ON", src, 20), Ok(()));
    assert_eq!(
        v.validate_command("NOT_A_COMMAND", src, 30),
        Err(ValidationError::RateLimitExceeded)
    );
}

#[test]
fn unknown_command_rejected_regardless_of_source() {
    let mut v = CommandValidator::new(10);
    assert_eq!(
        v.validate_command("SHUTDOWN_NETWORK", "esp32-sensor-01", 100),
        Err(ValidationError::UnknownCommand)
    );
    assert_eq!(
        v.validate_command("SHUTDOWN_NETWORK", "unknown-origin", 200),
        Err(ValidationError::UnknownCommand)
    );
    assert_eq!(
        v.validate_command("SHUTDOWN_NETWORK", "telegram-bot-7", 300),
        Err(ValidationError::UnknownCommand)
    );
}

#[test]
fn untrusted_source_rejected() {
    let mut v = CommandValidator::new(10);
    assert_eq!(
        v.validate_command("LED_ON", "hacker-device", 100),
        Err(ValidationError::UntrustedSource)
    );
    assert_eq!(v.validate_command("LED_ON", "esp32-sensor-01", 200), Ok(()));
    assert_eq!(v.validate_command("LED_ON", "telegram-bot-1", 300), Ok(()));
    assert_eq!(v.validate_command("LED_ON", "node-red-flow", 400), Ok(()));
}

#[test]
fn buzzer_needs_narrower_source_even_when_generally_trusted() {
    let mut v = CommandValidator::new(10);
    // node-red is a trusted sender in general...
    assert_eq!(v.validate_command("LED_ON", "node-red-flow", 100), Ok(()));
    // ...but not in the buzzer allow-set.
    assert_eq!(
        v.validate_command("BUZZER", "node-red-flow", 200),
        Err(ValidationError::BuzzerSourceNotAllowed)
    );
    assert_eq!(
        v.validate_command("BUZZER_TRIPLE", "node-red-flow", 300),
        Err(ValidationError::BuzzerSourceNotAllowed)
    );
    assert_eq!(v.validate_command("BUZZER", "esp32-sensor-01", 400), Ok(()));
    assert_eq!(v.validate_command("BUZZER", "telegram-bot-1", 500), Ok(()));
}

#[test]
fn window_reset_happens_even_on_rejected_calls() {
    let mut v = CommandValidator::new(1);
    let src = "esp32-sensor-01";
    assert_eq!(v.validate_command("LED_ON", src, 1000), Ok(()));
    assert_eq!(
        v.validate_command("LED_ON", src, 2000),
        Err(ValidationError::RateLimitExceeded)
    );
    // A minute after the window opened (at time 0), the next call resets it.
    assert_eq!(v.validate_command("LED_ON", src, 61001), Ok(()));
}

//! Firmware logic for two cooperating nodes on a publish/subscribe bus: a
//! sensing node that acquires a contactless-card identifier over a
//! register-level transport, and an actuating node that validates and
//! dispatches structured commands against LEDs and a buzzer.
//!
//! Hardware access (SPI frames, GPIO levels, PWM, delays) goes through small
//! port traits whose methods promise nothing; everything the firmware decides
//! on top of them is specified and verified here.

pub mod buttons;
pub mod codec;
pub mod config;
pub mod dispatcher;
pub mod driver;
pub mod encode;
pub mod queue;
pub mod roundtrip;
pub mod sensor;
pub mod text;
pub mod validator;

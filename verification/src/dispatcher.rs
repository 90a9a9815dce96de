//! Execution of accepted commands against the actuator capabilities: the
//! three LEDs and the buzzer. Each resource enforces its own cooldown,
//! independent of the validator's global rate limit; emergency operations
//! bypass every cooldown and reset it. Every path returns a structured
//! outcome and none panics.

use vstd::prelude::*;

use crate::codec::{Command, CommandView};
use crate::text::str_eq;

verus! {

/// Minimum interval between state changes of one LED, in milliseconds.
pub const LED_COOLDOWN_MS: u64 = 1000;

/// Minimum interval between buzzer beeps, in milliseconds.
pub const BUZZER_COOLDOWN_MS: u64 = 2000;

/// Cap on buzzer activations per day.
pub const DAILY_BEEP_LIMIT: u32 = 1000;

/// Output port for the LEDs; the method promises nothing, so everything
/// proved of the controller holds whatever the pins do.
pub trait LedPort {
    /// Drives the physical level of one LED, identified by 1..=3.
    fn set_level(&mut self, led_id: u8, on: bool);
}

/// Output port for the buzzer's tone generator; the methods promise
/// nothing.
pub trait BuzzerPort {
    /// Sets the tone frequency, in hertz.
    fn set_frequency(&mut self, frequency: u32);

    /// Sets the duty cycle: 0 silences the buzzer, 512 sounds it.
    fn set_duty(&mut self, duty: u32);

    /// Waits the given number of milliseconds.
    fn delay_ms(&mut self, ms: u32);
}

/// Why an LED operation was rejected.
#[derive(Clone, Copy, Debug, PartialEq, Eq, Structural)]
pub enum LedError {
    /// An LED id outside 1..=3.
    InvalidId,
    /// The LED changed less than its cooldown interval ago.
    CooldownActive,
}

/// Why a buzzer operation was rejected.
#[derive(Clone, Copy, Debug, PartialEq, Eq, Structural)]
pub enum BuzzerError {
    /// The buzzer sounded less than its cooldown interval ago.
    CooldownActive,
    /// The daily activation cap is reached.
    DailyLimitExceeded,
    /// A frequency outside 100..=5000 hertz.
    FrequencyOutOfRange,
    /// A duration above 5000 milliseconds.
    DurationTooLong,
}

/// Decision on one LED set operation: the id must lie in 1..=3 and the
/// LED's cooldown interval must have elapsed.
pub open spec fn spec_led_result(times: Seq<u64>, led_id: u8, now: u64) -> Result<(), LedError> {
    if !(1 <= led_id <= 3) {
        Err(LedError::InvalidId)
    } else if now - times[led_id - 1] < LED_COOLDOWN_MS {
        Err(LedError::CooldownActive)
    } else {
        Ok(())
    }
}

/// LED states after one set operation: only an accepted operation changes
/// its LED.
pub open spec fn spec_led_states_after(
    states: Seq<bool>,
    times: Seq<u64>,
    led_id: u8,
    state: bool,
    now: u64,
) -> Seq<bool> {
    if spec_led_result(times, led_id, now) is Ok {
        states.update(led_id - 1, state)
    } else {
        states
    }
}

/// Cooldown stamps after one set operation: an accepted operation stamps
/// its LED with `now`.
pub open spec fn spec_led_times_after(times: Seq<u64>, led_id: u8, now: u64) -> Seq<u64> {
    if spec_led_result(times, led_id, now) is Ok {
        times.update(led_id - 1, now)
    } else {
        times
    }
}

/// LED states after a set-all operation: each LED whose own cooldown has
/// elapsed takes the new state, the others keep theirs.
pub open spec fn spec_all_states_after(
    states: Seq<bool>,
    times: Seq<u64>,
    state: bool,
    now: u64,
) -> Seq<bool> {
    Seq::new(
        3,
        |i: int|
            if now - times[i] >= LED_COOLDOWN_MS {
                state
            } else {
                states[i]
            },
    )
}

/// Cooldown stamps after a set-all operation.
pub open spec fn spec_all_times_after(times: Seq<u64>, now: u64) -> Seq<u64> {
    Seq::new(
        3,
        |i: int|
            if now - times[i] >= LED_COOLDOWN_MS {
                now
            } else {
                times[i]
            },
    )
}

/// Decision on one beep: the cooldown interval must have elapsed, the daily
/// cap must not be reached, the frequency must lie in 100..=5000 hertz and
/// the duration must not exceed 5000 milliseconds, checked in that order.
pub open spec fn spec_beep_result(
    beep_time: u64,
    beep_count: u32,
    frequency: u32,
    duration_ms: u64,
    now: u64,
) -> Result<(), BuzzerError> {
    if now - beep_time < BUZZER_COOLDOWN_MS {
        Err(BuzzerError::CooldownActive)
    } else if beep_count >= DAILY_BEEP_LIMIT {
        Err(BuzzerError::DailyLimitExceeded)
    } else if frequency < 100 || frequency > 5000 {
        Err(BuzzerError::FrequencyOutOfRange)
    } else if duration_ms > 5000 {
        Err(BuzzerError::DurationTooLong)
    } else {
        Ok(())
    }
}

/// Controller of the three LEDs: remembers each LED's boolean state and
/// the time of its last change, and refuses changes inside the cooldown
/// interval.
pub struct LedController<P: LedPort> {
    pub port: P,
    pub states: [bool; 3],
    pub last_change_time: [u64; 3],
}

impl<P: LedPort> LedController<P> {
    /// `now` does not lie before any recorded change: the clock is
    /// monotone.
    pub open spec fn clock_ok(&self, now: u64) -> bool {
        forall|i: int| 0 <= i < 3 ==> now >= self.last_change_time@[i]
    }

    /// Wraps a port, all LEDs off and immediately eligible once the
    /// cooldown interval has passed from time zero.
    pub fn new(port: P) -> (r: LedController<P>)
        ensures
            r.states@ == seq![false, false, false],
            r.last_change_time@ == seq![0u64, 0u64, 0u64],
    {
        let r = LedController { port, states: [false, false, false], last_change_time: [0, 0, 0] };
        proof {
            assert(r.states@ =~= seq![false, false, false]);
            assert(r.last_change_time@ =~= seq![0u64, 0u64, 0u64]);
        }
        r
    }

    /// Sets one LED: rejected when the id is out of range or the LED
    /// changed less than the cooldown interval ago; an accepted change
    /// drives the pin, records the state and stamps the cooldown.
    pub fn set_led(&mut self, led_id: u8, state: bool, now: u64) -> (r: Result<(), LedError>)
        requires
            old(self).clock_ok(now),
        ensures
            r == spec_led_result(old(self).last_change_time@, led_id, now),
            final(self).states@ == spec_led_states_after(
                old(self).states@,
                old(self).last_change_time@,
                led_id,
                state,
                now,
            ),
            final(self).last_change_time@ == spec_led_times_after(
                old(self).last_change_time@,
                led_id,
                now,
            ),
            final(self).clock_ok(now),
    {
        if led_id < 1 || led_id > 3 {
            return Err(LedError::InvalidId);
        }
        let index = (led_id - 1) as usize;
        if now - self.last_change_time[index] < LED_COOLDOWN_MS {
            return Err(LedError::CooldownActive);
        }
        let s = self.states;
        let t = self.last_change_time;
        self.states = [
            if index == 0 {
                state
            } else {
                s[0]
            },
            if index == 1 {
                state
            } else {
                s[1]
            },
            if index == 2 {
                state
            } else {
                s[2]
            },
        ];
        self.last_change_time = [
            if index == 0 {
                now
            } else {
                t[0]
            },
            if index == 1 {
                now
            } else {
                t[1]
            },
            if index == 2 {
                now
            } else {
                t[2]
            },
        ];
        proof {
            assert(self.states@ =~= spec_led_states_after(s@, t@, led_id, state, now));
            assert(self.last_change_time@ =~= spec_led_times_after(t@, led_id, now));
        }
        self.port.set_level(led_id, state);
        Ok(())
    }

    /// Flips one LED to the opposite of its recorded state, under the same
    /// cooldown rule as a set; returns the new state.
    pub fn toggle_led(&mut self, led_id: u8, now: u64) -> (r: Result<bool, LedError>)
        requires
            old(self).clock_ok(now),
        ensures
            r == (match spec_led_result(old(self).last_change_time@, led_id, now) {
                Ok(()) => Ok(!old(self).states@[led_id - 1]),
                Err(e) => Err::<bool, LedError>(e),
            }),
            final(self).states@ == spec_led_states_after(
                old(self).states@,
                old(self).last_change_time@,
                led_id,
                !old(self).states@[led_id - 1],
                now,
            ),
            final(self).last_change_time@ == spec_led_times_after(
                old(self).last_change_time@,
                led_id,
                now,
            ),
            final(self).clock_ok(now),
    {
        if led_id < 1 || led_id > 3 {
            return Err(LedError::InvalidId);
        }
        let index = (led_id - 1) as usize;
        let new_state = !self.states[index];
        match self.set_led(led_id, new_state, now) {
            Ok(()) => Ok(new_state),
            Err(e) => Err(e),
        }
    }

    /// The recorded state of one LED; an out-of-range id reads as off.
    pub fn get_state(&self, led_id: u8) -> (r: bool)
        ensures
            r == if 1 <= led_id <= 3 {
                self.states@[led_id - 1]
            } else {
                false
            },
    {
        if led_id < 1 || led_id > 3 {
            return false;
        }
        self.states[(led_id - 1) as usize]
    }

    /// Turns every LED off, each under its own cooldown rule: LEDs still
    /// cooling down keep their state.
    pub fn turn_off_all(&mut self, now: u64)
        requires
            old(self).clock_ok(now),
        ensures
            final(self).states@ == spec_all_states_after(
                old(self).states@,
                old(self).last_change_time@,
                false,
                now,
            ),
            final(self).last_change_time@ == spec_all_times_after(
                old(self).last_change_time@,
                now,
            ),
            final(self).clock_ok(now),
    {
        let _ = self.set_led(1, false, now);
        let _ = self.set_led(2, false, now);
        let _ = self.set_led(3, false, now);
        proof {
            assert(self.states@ =~= spec_all_states_after(
                old(self).states@,
                old(self).last_change_time@,
                false,
                now,
            ));
            assert(self.last_change_time@ =~= spec_all_times_after(
                old(self).last_change_time@,
                now,
            ));
        }
    }

    /// Turns every LED on, each under its own cooldown rule.
    pub fn turn_on_all(&mut self, now: u64)
        requires
            old(self).clock_ok(now),
        ensures
            final(self).states@ == spec_all_states_after(
                old(self).states@,
                old(self).last_change_time@,
                true,
                now,
            ),
            final(self).last_change_time@ == spec_all_times_after(
                old(self).last_change_time@,
                now,
            ),
            final(self).clock_ok(now),
    {
        let _ = self.set_led(1, true, now);
        let _ = self.set_led(2, true, now);
        let _ = self.set_led(3, true, now);
        proof {
            assert(self.states@ =~= spec_all_states_after(
                old(self).states@,
                old(self).last_change_time@,
                true,
                now,
            ));
            assert(self.last_change_time@ =~= spec_all_times_after(
                old(self).last_change_time@,
                now,
            ));
        }
    }

    /// Emergency shutdown: always succeeds, forces every LED off without
    /// consulting any cooldown, and resets every cooldown stamp to zero so
    /// the next normal operation is immediately eligible.
    pub fn emergency_shutdown(&mut self)
        ensures
            final(self).states@ == seq![false, false, false],
            final(self).last_change_time@ == seq![0u64, 0u64, 0u64],
    {
        self.states = [false, false, false];
        self.last_change_time = [0, 0, 0];
        self.port.set_level(1, false);
        self.port.set_level(2, false);
        self.port.set_level(3, false);
        proof {
            assert(self.states@ =~= seq![false, false, false]);
            assert(self.last_change_time@ =~= seq![0u64, 0u64, 0u64]);
        }
    }
}

/// Controller of the buzzer: enforces its cooldown, its daily cap and its
/// parameter ranges before driving the tone.
pub struct BuzzerController<P: BuzzerPort> {
    pub port: P,
    pub last_beep_time: u64,
    pub daily_beep_count: u32,
}

impl<P: BuzzerPort> BuzzerController<P> {
    /// Wraps a port with a fresh cooldown and counter.
    pub fn new(port: P) -> (r: BuzzerController<P>)
        ensures
            r.last_beep_time == 0,
            r.daily_beep_count == 0,
    {
        BuzzerController { port, last_beep_time: 0, daily_beep_count: 0 }
    }

    /// Sounds the buzzer at `frequency` hertz for `duration_ms`
    /// milliseconds, then silences it: rejected when the cooldown interval
    /// has not elapsed, the daily cap is reached, or a parameter is out of
    /// range; an accepted beep stamps the cooldown and counts against the
    /// daily cap.
    pub fn beep(&mut self, frequency: u32, duration_ms: u64, now: u64) -> (r: Result<
        (),
        BuzzerError,
    >)
        requires
            now >= old(self).last_beep_time,
        ensures
            r == spec_beep_result(
                old(self).last_beep_time,
                old(self).daily_beep_count,
                frequency,
                duration_ms,
                now,
            ),
            final(self).last_beep_time == if r is Ok {
                now
            } else {
                old(self).last_beep_time
            },
            final(self).daily_beep_count == if r is Ok {
                (old(self).daily_beep_count + 1) as u32
            } else {
                old(self).daily_beep_count
            },
    {
        if now - self.last_beep_time < BUZZER_COOLDOWN_MS {
            return Err(BuzzerError::CooldownActive);
        }
        if self.daily_beep_count >= DAILY_BEEP_LIMIT {
            return Err(BuzzerError::DailyLimitExceeded);
        }
        if frequency < 100 || frequency > 5000 {
            return Err(BuzzerError::FrequencyOutOfRange);
        }
        if duration_ms > 5000 {
            return Err(BuzzerError::DurationTooLong);
        }
        self.port.set_frequency(frequency);
        self.port.set_duty(512);
        self.port.delay_ms(duration_ms as u32);
        self.port.set_duty(0);
        self.last_beep_time = now;
        self.daily_beep_count = self.daily_beep_count + 1;
        Ok(())
    }

    /// Three beep attempts in direct succession, stopping at the first
    /// rejection. With the cooldown in force and one unchanged `now`, an
    /// accepted first beep makes the second attempt report the cooldown:
    /// the result then carries that rejection while exactly one beep has
    /// sounded.
    pub fn triple_beep(&mut self, now: u64) -> (r: Result<(), BuzzerError>)
        requires
            now >= old(self).last_beep_time,
        ensures
            ({
                let first = spec_beep_result(
                    old(self).last_beep_time,
                    old(self).daily_beep_count,
                    1000,
                    200,
                    now,
                );
                &&& r == (if first is Ok {
                    Err::<(), BuzzerError>(BuzzerError::CooldownActive)
                } else {
                    first
                })
                &&& final(self).last_beep_time == if first is Ok {
                    now
                } else {
                    old(self).last_beep_time
                }
                &&& final(self).daily_beep_count == if first is Ok {
                    (old(self).daily_beep_count + 1) as u32
                } else {
                    old(self).daily_beep_count
                }
            }),
    {
        match self.beep(1000, 200, now) {
            Err(e) => {
                return Err(e);
            },
            Ok(()) => {},
        }
        self.port.delay_ms(150);
        match self.beep(1000, 200, now) {
            Err(e) => {
                return Err(e);
            },
            Ok(()) => {},
        }
        self.port.delay_ms(150);
        match self.beep(1000, 200, now) {
            Err(e) => {
                return Err(e);
            },
            Ok(()) => {},
        }
        Ok(())
    }

    /// The startup chime: a fixed three-tone sequence driven directly on
    /// the port, before command processing begins; consumes no beep budget
    /// and touches no cooldown.
    pub fn startup_sound(&mut self)
        ensures
            final(self).last_beep_time == old(self).last_beep_time,
            final(self).daily_beep_count == old(self).daily_beep_count,
    {
        self.port.set_frequency(500);
        self.port.set_duty(512);
        self.port.delay_ms(100);
        self.port.set_duty(0);
        self.port.delay_ms(50);
        self.port.set_frequency(750);
        self.port.set_duty(512);
        self.port.delay_ms(100);
        self.port.set_duty(0);
        self.port.delay_ms(50);
        self.port.set_frequency(1000);
        self.port.set_duty(512);
        self.port.delay_ms(200);
        self.port.set_duty(0);
    }

    /// Emergency beep: a short fixed tone that bypasses the cooldown, the
    /// daily cap and the parameter checks, and always succeeds. As with
    /// every emergency operation, the resource's cooldown stamp is reset
    /// to zero, so the next normal beep is immediately eligible; the
    /// daily counter is untouched.
    pub fn emergency_beep(&mut self) -> (r: Result<(), BuzzerError>)
        ensures
            r is Ok,
            final(self).last_beep_time == 0,
            final(self).daily_beep_count == old(self).daily_beep_count,
    {
        self.port.set_frequency(1500);
        self.port.set_duty(512);
        self.port.delay_ms(200);
        self.port.set_duty(0);
        self.last_beep_time = 0;
        Ok(())
    }

    /// Resets the daily activation counter: the node calls this on its
    /// daily rollover so the cap bounds a day's activations rather than
    /// the device's lifetime.
    pub fn reset_daily_count(&mut self)
        ensures
            final(self).daily_beep_count == 0,
            final(self).last_beep_time == old(self).last_beep_time,
    {
        self.daily_beep_count = 0;
    }
}

/// What a successful dispatch did.
#[derive(Clone, Copy, Debug, PartialEq, Eq, Structural)]
pub enum DispatchSuccess {
    /// One LED was set to the given state.
    LedSet { led_id: u8, on: bool },
    /// Every eligible LED was turned on.
    AllLedsOn,
    /// Every eligible LED was turned off.
    AllLedsOff,
    /// Emergency shutdown: every LED forced off and every cooldown reset.
    EmergencyShutdown,
    /// The buzzer sounded for the given duration.
    Buzzed { duration_ms: u64 },
    /// Three beeps ran to completion; with the cooldown in force, a
    /// triple beep instead reports the cooldown after its first beep.
    TripleBeeped,
    /// An acknowledge was taken, with a best-effort chirp.
    Acknowledged,
}

/// Why a dispatch was rejected.
#[derive(Clone, Copy, Debug, PartialEq, Eq, Structural)]
pub enum DispatchError {
    /// An LED command without its required LED id.
    MissingLedId,
    /// The LED controller rejected the operation.
    Led(LedError),
    /// The buzzer controller rejected the operation.
    Buzzer(BuzzerError),
    /// A whitelisted command this actuator does not implement.
    NotImplemented,
}

/// Mathematical image of the actuator state: the LED booleans, the LED
/// cooldown stamps, and the buzzer cooldown stamp and daily counter.
#[verifier::ext_equal]
pub ghost struct ActuatorModel {
    pub led_states: Seq<bool>,
    pub led_times: Seq<u64>,
    pub beep_time: u64,
    pub beep_count: u32,
}

/// State and outcome of dispatching one command against the actuator:
/// each arm composes the component transition of the resource it drives.
pub open spec fn spec_dispatch(m: ActuatorModel, c: CommandView, now: u64) -> (
    ActuatorModel,
    Result<DispatchSuccess, DispatchError>,
) {
    if c.command == ("LED_ON")@ || c.command == ("LED_OFF")@ {
        let on = c.command == ("LED_ON")@;
        match c.led_id {
            Some(id) => (
                ActuatorModel {
                    led_states: spec_led_states_after(m.led_states, m.led_times, id, on, now),
                    led_times: spec_led_times_after(m.led_times, id, now),
                    ..m
                },
                match spec_led_result(m.led_times, id, now) {
                    Ok(()) => Ok(DispatchSuccess::LedSet { led_id: id, on }),
                    Err(e) => Err(DispatchError::Led(e)),
                },
            ),
            None => (m, Err(DispatchError::MissingLedId)),
        }
    } else if c.command == ("LED_TOGGLE")@ {
        match c.led_id {
            Some(id) => {
                let on = !m.led_states[id - 1];
                (
                    ActuatorModel {
                        led_states: spec_led_states_after(m.led_states, m.led_times, id, on, now),
                        led_times: spec_led_times_after(m.led_times, id, now),
                        ..m
                    },
                    match spec_led_result(m.led_times, id, now) {
                        Ok(()) => Ok(DispatchSuccess::LedSet { led_id: id, on }),
                        Err(e) => Err(DispatchError::Led(e)),
                    },
                )
            },
            None => (m, Err(DispatchError::MissingLedId)),
        }
    } else if c.command == ("LED_ALL_ON")@ {
        (
            ActuatorModel {
                led_states: spec_all_states_after(m.led_states, m.led_times, true, now),
                led_times: spec_all_times_after(m.led_times, now),
                ..m
            },
            Ok(DispatchSuccess::AllLedsOn),
        )
    } else if c.command == ("LED_ALL_OFF")@ {
        if c.emergency == Some(true) {
            (
                ActuatorModel {
                    led_states: seq![false, false, false],
                    led_times: seq![0u64, 0u64, 0u64],
                    beep_time: 0,
                    ..m
                },
                Ok(DispatchSuccess::EmergencyShutdown),
            )
        } else {
            (
                ActuatorModel {
                    led_states: spec_all_states_after(m.led_states, m.led_times, false, now),
                    led_times: spec_all_times_after(m.led_times, now),
                    ..m
                },
                Ok(DispatchSuccess::AllLedsOff),
            )
        }
    } else if c.command == ("BUZZER")@ {
        let duration = match c.duration {
            Some(d) => d,
            None => 500u64,
        };
        let r = spec_beep_result(m.beep_time, m.beep_count, 1000, duration, now);
        (
            ActuatorModel {
                beep_time: if r is Ok {
                    now
                } else {
                    m.beep_time
                },
                beep_count: if r is Ok {
                    (m.beep_count + 1) as u32
                } else {
                    m.beep_count
                },
                ..m
            },
            match r {
                Ok(()) => Ok(DispatchSuccess::Buzzed { duration_ms: duration }),
                Err(e) => Err(DispatchError::Buzzer(e)),
            },
        )
    } else if c.command == ("BUZZER_TRIPLE")@ {
        let first = spec_beep_result(m.beep_time, m.beep_count, 1000, 200, now);
        (
            ActuatorModel {
                beep_time: if first is Ok {
                    now
                } else {
                    m.beep_time
                },
                beep_count: if first is Ok {
                    (m.beep_count + 1) as u32
                } else {
                    m.beep_count
                },
                ..m
            },
            match first {
                Ok(()) => Err(DispatchError::Buzzer(BuzzerError::CooldownActive)),
                Err(e) => Err(DispatchError::Buzzer(e)),
            },
        )
    } else if c.command == ("ACKNOWLEDGE")@ {
        let r = spec_beep_result(m.beep_time, m.beep_count, 750, 300, now);
        (
            ActuatorModel {
                beep_time: if r is Ok {
                    now
                } else {
                    m.beep_time
                },
                beep_count: if r is Ok {
                    (m.beep_count + 1) as u32
                } else {
                    m.beep_count
                },
                ..m
            },
            Ok(DispatchSuccess::Acknowledged),
        )
    } else {
        (m, Err(DispatchError::NotImplemented))
    }
}

/// Executes accepted commands against the LED set and the buzzer, each
/// resource under its own cooldown.
pub struct CommandDispatcher<L: LedPort, B: BuzzerPort> {
    pub leds: LedController<L>,
    pub buzzer: BuzzerController<B>,
}

impl<L: LedPort, B: BuzzerPort> CommandDispatcher<L, B> {
    /// The actuator state this dispatcher holds.
    pub open spec fn model(&self) -> ActuatorModel {
        ActuatorModel {
            led_states: self.leds.states@,
            led_times: self.leds.last_change_time@,
            beep_time: self.buzzer.last_beep_time,
            beep_count: self.buzzer.daily_beep_count,
        }
    }

    /// Combines the two controllers.
    pub fn new(leds: LedController<L>, buzzer: BuzzerController<B>) -> (r: CommandDispatcher<
        L,
        B,
    >)
        ensures
            r.model() == (ActuatorModel {
                led_states: leds.states@,
                led_times: leds.last_change_time@,
                beep_time: buzzer.last_beep_time,
                beep_count: buzzer.daily_beep_count,
            }),
    {
        CommandDispatcher { leds, buzzer }
    }

    /// Executes one command at time `now` (milliseconds, monotone) and
    /// returns its structured outcome; every outcome and state change is
    /// the dispatch transition of the command, and no path panics.
    pub fn dispatch(&mut self, c: &Command, now: u64) -> (r: Result<
        DispatchSuccess,
        DispatchError,
    >)
        requires
            old(self).leds.clock_ok(now),
            now >= old(self).buzzer.last_beep_time,
        ensures
            ({
                let (m2, r2) = spec_dispatch(old(self).model(), c@, now);
                final(self).model() == m2 && r == r2
            }),
            final(self).leds.clock_ok(now),
            now >= final(self).buzzer.last_beep_time,
    {
        let r: Result<DispatchSuccess, DispatchError> = if str_eq(c.command.as_str(), "LED_ON") {
            match c.led_id {
                Some(id) => match self.leds.set_led(id, true, now) {
                    Ok(()) => Ok(DispatchSuccess::LedSet { led_id: id, on: true }),
                    Err(e) => Err(DispatchError::Led(e)),
                },
                None => Err(DispatchError::MissingLedId),
            }
        } else if str_eq(c.command.as_str(), "LED_OFF") {
            match c.led_id {
                Some(id) => match self.leds.set_led(id, false, now) {
                    Ok(()) => Ok(DispatchSuccess::LedSet { led_id: id, on: false }),
                    Err(e) => Err(DispatchError::Led(e)),
                },
                None => Err(DispatchError::MissingLedId),
            }
        } else if str_eq(c.command.as_str(), "LED_TOGGLE") {
            match c.led_id {
                Some(id) => match self.leds.toggle_led(id, now) {
                    Ok(on) => Ok(DispatchSuccess::LedSet { led_id: id, on }),
                    Err(e) => Err(DispatchError::Led(e)),
                },
                None => Err(DispatchError::MissingLedId),
            }
        } else if str_eq(c.command.as_str(), "LED_ALL_ON") {
            self.leds.turn_on_all(now);
            Ok(DispatchSuccess::AllLedsOn)
        } else if str_eq(c.command.as_str(), "LED_ALL_OFF") {
            match c.emergency {
                Some(true) => {
                    self.leds.emergency_shutdown();
                    let _ = self.buzzer.emergency_beep();
                    Ok(DispatchSuccess::EmergencyShutdown)
                },
                _ => {
                    self.leds.turn_off_all(now);
                    Ok(DispatchSuccess::AllLedsOff)
                },
            }
        } else if str_eq(c.command.as_str(), "BUZZER") {
            let duration = match c.duration {
                Some(d) => d,
                None => 500,
            };
            match self.buzzer.beep(1000, duration, now) {
                Ok(()) => Ok(DispatchSuccess::Buzzed { duration_ms: duration }),
                Err(e) => Err(DispatchError::Buzzer(e)),
            }
        } else if str_eq(c.command.as_str(), "BUZZER_TRIPLE") {
            match self.buzzer.triple_beep(now) {
                Ok(()) => Ok(DispatchSuccess::TripleBeeped),
                Err(e) => Err(DispatchError::Buzzer(e)),
            }
        } else if str_eq(c.command.as_str(), "ACKNOWLEDGE") {
            let _ = self.buzzer.beep(750, 300, now);
            Ok(DispatchSuccess::Acknowledged)
        } else {
            Err(DispatchError::NotImplemented)
        };
        proof {
            let (m2, r2) = spec_dispatch(old(self).model(), c@, now);
            assert(self.model() =~= m2);
        }
        r
    }
}

/// A recording LED port for bench runs: remembers the level last driven on
/// each pin.
pub struct SimLedPort {
    pub levels: [bool; 3],
}

impl SimLedPort {
    /// All pins low.
    pub fn new() -> (r: SimLedPort)
        ensures
            r.levels@ == seq![false, false, false],
    {
        let r = SimLedPort { levels: [false, false, false] };
        proof {
            assert(r.levels@ =~= seq![false, false, false]);
        }
        r
    }
}

impl LedPort for SimLedPort {
    fn set_level(&mut self, led_id: u8, on: bool) {
        if 1 <= led_id && led_id <= 3 {
            let index = (led_id - 1) as usize;
            let l = self.levels;
            self.levels = [
                if index == 0 {
                    on
                } else {
                    l[0]
                },
                if index == 1 {
                    on
                } else {
                    l[1]
                },
                if index == 2 {
                    on
                } else {
                    l[2]
                },
            ];
        }
    }
}

/// A silent buzzer port for bench runs: remembers the frequency and duty
/// last set and counts the milliseconds it was asked to wait.
pub struct SimBuzzerPort {
    pub frequency: u32,
    pub duty: u32,
    pub waited_ms: u64,
}

impl SimBuzzerPort {
    /// Silent, nothing waited.
    pub fn new() -> (r: SimBuzzerPort)
        ensures
            r.frequency == 0,
            r.duty == 0,
            r.waited_ms == 0,
    {
        SimBuzzerPort { frequency: 0, duty: 0, waited_ms: 0 }
    }
}

impl BuzzerPort for SimBuzzerPort {
    fn set_frequency(&mut self, frequency: u32) {
        self.frequency = frequency;
    }

    fn set_duty(&mut self, duty: u32) {
        self.duty = duty;
    }

    fn delay_ms(&mut self, ms: u32) {
        if self.waited_ms <= u64::MAX - ms as u64 {
            self.waited_ms = self.waited_ms + ms as u64;
        }
    }
}

/// Two set operations on the same LED: when the second comes less than the
/// cooldown interval after an accepted first, it is rejected with the
/// cooldown; once the full interval has passed, it is accepted.
pub proof fn lemma_led_cooldown(times: Seq<u64>, led_id: u8, t1: u64, t2: u64)
    requires
        times.len() == 3,
        1 <= led_id <= 3,
        spec_led_result(times, led_id, t1) is Ok,
        t1 <= t2,
    ensures
        t2 - t1 < LED_COOLDOWN_MS ==> spec_led_result(
            spec_led_times_after(times, led_id, t1),
            led_id,
            t2,
        ) == Err::<(), LedError>(LedError::CooldownActive),
        t2 - t1 >= LED_COOLDOWN_MS ==> spec_led_result(
            spec_led_times_after(times, led_id, t1),
            led_id,
            t2,
        ) is Ok,
{
    assert(spec_led_times_after(times, led_id, t1)[led_id - 1] == t1);
}

/// Emergency shutdown has no failure path and zeroes every cooldown
/// stamp, so the next normal operation on any LED is eligible at once:
/// from zeroed stamps, a set at any time past the cooldown interval from
/// boot is accepted.
pub proof fn lemma_emergency_resets_cooldown(led_id: u8, now: u64)
    requires
        1 <= led_id <= 3,
        now >= LED_COOLDOWN_MS,
    ensures
        spec_led_result(seq![0u64, 0u64, 0u64], led_id, now) is Ok,
{
}

/// Emergency operations reset the buzzer's cooldown stamp to zero too, so
/// the next normal beep with in-range parameters and remaining daily
/// budget is accepted at any time past the cooldown interval from boot.
pub proof fn lemma_emergency_resets_buzzer_cooldown(
    beep_count: u32,
    frequency: u32,
    duration_ms: u64,
    now: u64,
)
    requires
        now >= BUZZER_COOLDOWN_MS,
        beep_count < DAILY_BEEP_LIMIT,
        100 <= frequency <= 5000,
        duration_ms <= 5000,
    ensures
        spec_beep_result(0, beep_count, frequency, duration_ms, now) is Ok,
{
}

} // verus!

//! Stateful gatekeeper for incoming commands: a sliding-minute rate
//! counter checked first, then the command whitelist, the source trust
//! rule, and the narrower buzzer source rule.
//!
//! The rate limit is checked before the whitelist and source checks on
//! purpose: a flood of commands exhausts the same budget whether or not
//! the commands are valid, so flooding cannot bypass validation.

use vstd::prelude::*;

use crate::text::{contains_sub, spec_contains, spec_starts_with, starts_with_sub, str_eq};

verus! {

/// Why the validator rejected a command.
#[derive(Clone, Copy, Debug, PartialEq, Eq, Structural)]
pub enum ValidationError {
    /// The per-minute command budget is exhausted.
    RateLimitExceeded,
    /// The command is not in the fixed allow-list.
    UnknownCommand,
    /// The source id does not start with a trusted prefix.
    UntrustedSource,
    /// A buzzer command came from outside the narrower buzzer allow-set.
    BuzzerSourceNotAllowed,
}

/// The fixed command allow-list.
pub open spec fn spec_is_allowed(cmd: Seq<char>) -> bool {
    ||| cmd == ("LED_ON")@
    ||| cmd == ("LED_OFF")@
    ||| cmd == ("LED_TOGGLE")@
    ||| cmd == ("LED_ALL_ON")@
    ||| cmd == ("LED_ALL_OFF")@
    ||| cmd == ("BUZZER")@
    ||| cmd == ("BUZZER_TRIPLE")@
    ||| cmd == ("ACKNOWLEDGE")@
}

/// A source is trusted when it starts with one of the trusted prefixes.
pub open spec fn spec_is_trusted_source(src: Seq<char>) -> bool {
    ||| spec_starts_with(src, ("esp32-")@)
    ||| spec_starts_with(src, ("telegram-bot")@)
    ||| spec_starts_with(src, ("node-red")@)
}

/// The commands that drive the buzzer.
pub open spec fn spec_is_buzzer_command(cmd: Seq<char>) -> bool {
    cmd == ("BUZZER")@ || cmd == ("BUZZER_TRIPLE")@
}

/// The narrower allow-set for buzzer commands.
pub open spec fn spec_buzzer_source_allowed(src: Seq<char>) -> bool {
    spec_contains(src, ("telegram-bot")@) || spec_contains(src, ("esp32-sensor")@)
}

/// Decides membership of a command in the fixed allow-list.
pub fn validate_command(command: &str) -> (r: bool)
    ensures
        r == spec_is_allowed(command@),
{
    str_eq(command, "LED_ON") || str_eq(command, "LED_OFF") || str_eq(command, "LED_TOGGLE")
        || str_eq(command, "LED_ALL_ON") || str_eq(command, "LED_ALL_OFF") || str_eq(
        command,
        "BUZZER",
    ) || str_eq(command, "BUZZER_TRIPLE") || str_eq(command, "ACKNOWLEDGE")
}

/// The command gatekeeper's mutable window state.
pub struct CommandValidator {
    pub allowed_commands: Vec<&'static str>,
    pub command_count: u32,
    pub last_reset_time: u64,
    pub max_commands_per_minute: u32,
}

/// The count the window holds after the reset step: zero when more than a
/// minute has passed since the window opened, the stored count otherwise.
pub open spec fn spec_window_count(v: CommandValidator, now: u64) -> u32 {
    if now - v.last_reset_time > 60000 {
        0u32
    } else {
        v.command_count
    }
}

/// The window start after the reset step.
pub open spec fn spec_window_start(v: CommandValidator, now: u64) -> u64 {
    if now - v.last_reset_time > 60000 {
        now
    } else {
        v.last_reset_time
    }
}

/// The validator's decision: the rate limit is consulted first, then the
/// whitelist, then the trust rule, then the buzzer source rule.
pub open spec fn spec_validate_result(
    v: CommandValidator,
    cmd: Seq<char>,
    src: Seq<char>,
    now: u64,
) -> Result<(), ValidationError> {
    if spec_window_count(v, now) >= v.max_commands_per_minute {
        Err(ValidationError::RateLimitExceeded)
    } else if !spec_is_allowed(cmd) {
        Err(ValidationError::UnknownCommand)
    } else if !spec_is_trusted_source(src) {
        Err(ValidationError::UntrustedSource)
    } else if spec_is_buzzer_command(cmd) && !spec_buzzer_source_allowed(src) {
        Err(ValidationError::BuzzerSourceNotAllowed)
    } else {
        Ok(())
    }
}

/// The count stored after a validation: accepted commands consume one unit
/// of the window's budget, rejected ones none.
pub open spec fn spec_validate_count(
    v: CommandValidator,
    cmd: Seq<char>,
    src: Seq<char>,
    now: u64,
) -> u32 {
    if spec_validate_result(v, cmd, src, now) is Ok {
        (spec_window_count(v, now) + 1) as u32
    } else {
        spec_window_count(v, now)
    }
}

impl CommandValidator {
    /// The stored count never exceeds the per-minute cap, and the stored
    /// allow-list is the fixed one.
    pub open spec fn wf(&self) -> bool {
        &&& self.command_count <= self.max_commands_per_minute
        &&& self.allowed_commands@.len() == 8
        &&& self.allowed_commands@[0]@ == ("LED_ON")@
        &&& self.allowed_commands@[1]@ == ("LED_OFF")@
        &&& self.allowed_commands@[2]@ == ("LED_TOGGLE")@
        &&& self.allowed_commands@[3]@ == ("LED_ALL_ON")@
        &&& self.allowed_commands@[4]@ == ("LED_ALL_OFF")@
        &&& self.allowed_commands@[5]@ == ("BUZZER")@
        &&& self.allowed_commands@[6]@ == ("BUZZER_TRIPLE")@
        &&& self.allowed_commands@[7]@ == ("ACKNOWLEDGE")@
    }

    /// Creates a validator with an empty window and the fixed allow-list.
    pub fn new(max_commands_per_minute: u32) -> (r: CommandValidator)
        ensures
            r.wf(),
            r.command_count == 0,
            r.last_reset_time == 0,
            r.max_commands_per_minute == max_commands_per_minute,
    {
        let mut allowed: Vec<&'static str> = Vec::new();
        allowed.push("LED_ON");
        allowed.push("LED_OFF");
        allowed.push("LED_TOGGLE");
        allowed.push("LED_ALL_ON");
        allowed.push("LED_ALL_OFF");
        allowed.push("BUZZER");
        allowed.push("BUZZER_TRIPLE");
        allowed.push("ACKNOWLEDGE");
        CommandValidator {
            allowed_commands: allowed,
            command_count: 0,
            last_reset_time: 0,
            max_commands_per_minute,
        }
    }

    /// Validates one command from one source at time `now` (milliseconds,
    /// monotone): resets the window when a minute has passed, then applies
    /// the rate limit, the whitelist, the trust rule and the buzzer source
    /// rule, in that order, and counts the command against the window's
    /// budget exactly when it is accepted.
    pub fn validate_command(&mut self, command: &str, source: &str, now: u64) -> (r: Result<
        (),
        ValidationError,
    >)
        requires
            old(self).wf(),
            now >= old(self).last_reset_time,
        ensures
            final(self).wf(),
            r == spec_validate_result(*old(self), command@, source@, now),
            final(self).command_count == spec_validate_count(*old(self), command@, source@, now),
            final(self).last_reset_time == spec_window_start(*old(self), now),
            final(self).max_commands_per_minute == old(self).max_commands_per_minute,
            final(self).allowed_commands == old(self).allowed_commands,
    {
        if now - self.last_reset_time > 60000 {
            self.command_count = 0;
            self.last_reset_time = now;
        }
        if self.command_count >= self.max_commands_per_minute {
            return Err(ValidationError::RateLimitExceeded);
        }
        let mut found = false;
        let mut i: usize = 0;
        let n = self.allowed_commands.len();
        while i < n
            invariant
                n == self.allowed_commands@.len(),
                0 <= i <= n,
                found == exists|j: int| 0 <= j < i && command@ == self.allowed_commands@[j]@,
            decreases n - i,
        {
            if str_eq(command, self.allowed_commands[i]) {
                found = true;
            }
            i += 1;
        }
        proof {
            if found {
                let j = choose|j: int| 0 <= j < 8 && command@ == self.allowed_commands@[j]@;
                assert(spec_is_allowed(command@));
            }
        }
        if !found {
            return Err(ValidationError::UnknownCommand);
        }
        let trusted = starts_with_sub(source, "esp32-") || starts_with_sub(source, "telegram-bot")
            || starts_with_sub(source, "node-red");
        if !trusted {
            return Err(ValidationError::UntrustedSource);
        }
        if str_eq(command, "BUZZER") || str_eq(command, "BUZZER_TRIPLE") {
            if !(contains_sub(source, "telegram-bot") || contains_sub(source, "esp32-sensor")) {
                return Err(ValidationError::BuzzerSourceNotAllowed);
            }
        }
        self.command_count = self.command_count + 1;
        Ok(())
    }
}

/// A window that has used its whole budget rejects every further command
/// until the minute rolls over, whatever the command or the source.
pub proof fn lemma_rate_limit_blocks(v: CommandValidator, cmd: Seq<char>, src: Seq<char>, now: u64)
    requires
        spec_window_count(v, now) >= v.max_commands_per_minute,
    ensures
        spec_validate_result(v, cmd, src, now) == Err::<(), ValidationError>(
            ValidationError::RateLimitExceeded,
        ),
{
}

/// Once the minute has rolled over, a whitelisted command from a trusted
/// source (and, for buzzer commands, from the buzzer allow-set) is
/// accepted again, given a positive budget.
pub proof fn lemma_window_reset_restores(
    v: CommandValidator,
    cmd: Seq<char>,
    src: Seq<char>,
    now: u64,
)
    requires
        now - v.last_reset_time > 60000,
        v.max_commands_per_minute > 0,
        spec_is_allowed(cmd),
        spec_is_trusted_source(src),
        spec_is_buzzer_command(cmd) ==> spec_buzzer_source_allowed(src),
    ensures
        spec_validate_result(v, cmd, src, now) is Ok,
{
}

/// Validation never stores a count above the per-minute cap: accepted
/// commands exist only while the window still has budget.
pub proof fn lemma_window_budget(v: CommandValidator, cmd: Seq<char>, src: Seq<char>, now: u64)
    requires
        v.wf(),
    ensures
        spec_validate_count(v, cmd, src, now) <= v.max_commands_per_minute,
{
}

/// A command outside the allow-list is rejected whatever the source and
/// whatever the window state.
pub proof fn lemma_unknown_rejected(v: CommandValidator, cmd: Seq<char>, src: Seq<char>, now: u64)
    requires
        !spec_is_allowed(cmd),
    ensures
        spec_validate_result(v, cmd, src, now) is Err,
        spec_window_count(v, now) < v.max_commands_per_minute ==> spec_validate_result(
            v,
            cmd,
            src,
            now,
        ) == Err::<(), ValidationError>(ValidationError::UnknownCommand),
{
}

/// A buzzer command from a source that is trusted in general but outside
/// the buzzer allow-set is rejected for that reason alone.
pub proof fn lemma_buzzer_source_rejected(
    v: CommandValidator,
    cmd: Seq<char>,
    src: Seq<char>,
    now: u64,
)
    requires
        spec_window_count(v, now) < v.max_commands_per_minute,
        spec_is_buzzer_command(cmd),
        spec_is_trusted_source(src),
        !spec_buzzer_source_allowed(src),
    ensures
        spec_validate_result(v, cmd, src, now) == Err::<(), ValidationError>(
            ValidationError::BuzzerSourceNotAllowed,
        ),
{
    assert(spec_is_allowed(cmd));
}

} // verus!

//! Message codec for the command topic: a tolerant scanner that extracts
//! required and optional fields from a flat JSON-shaped text payload, and a
//! deterministic encoder that writes the fields back in a fixed order.
//!
//! Decoding fails only when a required field is missing; unknown fields,
//! reordered fields and unparseable optional fields are tolerated.

use vstd::prelude::*;

use crate::text::{
    find_sub, is_digit, is_digit_char, is_ws, is_ws_char, digit_val, digit_value,
    first_match_at, lemma_digit_run, lemma_digits_val_monotone, lemma_first_digit,
    lemma_skip_ws, lemma_spec_find_first, match_at, spec_digit_run, spec_digits_val,
    spec_find, spec_first_digit, spec_skip_ws, spec_starts_with, starts_with_sub,
};

verus! {

/// The marker a field scan looks for: the key wrapped in quotes, followed by
/// a colon.
pub open spec fn spec_marker(key: Seq<char>) -> Seq<char> {
    ("\"")@ + key + ("\":")@
}

/// Field value of `key` in payload `j` under the tolerant string scan: after
/// the leftmost `"key":` marker, the text between the next two quotes.
pub open spec fn spec_extract_string(j: Seq<char>, key: Seq<char>) -> Option<Seq<char>> {
    match spec_find(j, spec_marker(key)) {
        None => None,
        Some(m) => {
            let rest = j.subrange(m + spec_marker(key).len(), j.len() as int);
            match spec_find(rest, ("\"")@) {
                None => None,
                Some(q1) => {
                    let after = rest.subrange(q1 + 1, rest.len() as int);
                    match spec_find(after, ("\"")@) {
                        None => None,
                        Some(q2) => Some(after.subrange(0, q2)),
                    }
                },
            }
        },
    }
}

/// Field value of `key` in payload `j` under the tolerant number scan: after
/// the leftmost `"key":` marker, the first run of ASCII digits, read as a
/// decimal number; `None` when there is no digit or the value does not fit
/// in a `u32`.
pub open spec fn spec_extract_number(j: Seq<char>, key: Seq<char>) -> Option<u32> {
    match spec_find(j, spec_marker(key)) {
        None => None,
        Some(m) => {
            let rest = j.subrange(m + spec_marker(key).len(), j.len() as int);
            match spec_first_digit(rest) {
                None => None,
                Some(d) => {
                    let run = spec_digit_run(rest.subrange(d, rest.len() as int));
                    let v = spec_digits_val(rest.subrange(d, d + run));
                    if v <= u32::MAX {
                        Some(v as u32)
                    } else {
                        None
                    }
                },
            }
        },
    }
}

/// Field value of `key` in payload `j` under the tolerant boolean scan:
/// after the leftmost `"key":` marker and any whitespace, a literal `true`
/// or `false`.
pub open spec fn spec_extract_bool(j: Seq<char>, key: Seq<char>) -> Option<bool> {
    match spec_find(j, spec_marker(key)) {
        None => None,
        Some(m) => {
            let rest = j.subrange(m + spec_marker(key).len(), j.len() as int);
            let t = rest.subrange(spec_skip_ws(rest), rest.len() as int);
            if spec_starts_with(t, ("true")@) {
                Some(true)
            } else if spec_starts_with(t, ("false")@) {
                Some(false)
            } else {
                None
            }
        },
    }
}

/// Extracts the quoted string value of `key` from `json`: scans for the
/// leftmost `"key":` marker and returns the text between the next two
/// quotes, or `None` when the marker or the quotes are missing.
pub fn extract_json_string(json: &str, key: &str) -> (r: Option<String>)
    ensures
        match r {
            Some(v) => spec_extract_string(json@, key@) == Some(v@),
            None => spec_extract_string(json@, key@) is None,
        },
{
    let marker = String::from_str("\"").concat(key).concat("\":");
    proof {
        assert(marker@ =~= spec_marker(key@));
    }
    let m = match find_sub(json, marker.as_str()) {
        Some(m) => m,
        None => {
            return None;
        },
    };
    let json_len = json.unicode_len();
    let marker_len = marker.as_str().unicode_len();
    proof {
        lemma_spec_find_first(json@, marker@);
    }
    let rest = json.substring_char(m + marker_len, json_len);
    let q1 = match find_sub(rest, "\"") {
        Some(q) => q,
        None => {
            return None;
        },
    };
    let rest_len = rest.unicode_len();
    proof {
        reveal_strlit("\"");
        lemma_spec_find_first(rest@, ("\"")@);
    }
    let after = rest.substring_char(q1 + 1, rest_len);
    let q2 = match find_sub(after, "\"") {
        Some(q) => q,
        None => {
            return None;
        },
    };
    proof {
        lemma_spec_find_first(after@, ("\"")@);
    }
    let value = after.substring_char(0, q2);
    Some(value.to_owned())
}

/// Extracts the numeric value of `key` from `json`: scans for the leftmost
/// `"key":` marker and reads the first run of ASCII digits after it as a
/// decimal number; `None` when the marker or the digits are missing or the
/// value overflows a `u32`.
pub fn extract_json_number(json: &str, key: &str) -> (r: Option<u32>)
    ensures
        r == spec_extract_number(json@, key@),
{
    let marker = String::from_str("\"").concat(key).concat("\":");
    proof {
        assert(marker@ =~= spec_marker(key@));
    }
    let m = match find_sub(json, marker.as_str()) {
        Some(m) => m,
        None => {
            return None;
        },
    };
    let json_len = json.unicode_len();
    let marker_len = marker.as_str().unicode_len();
    proof {
        lemma_spec_find_first(json@, marker@);
    }
    let rest = json.substring_char(m + marker_len, json_len);
    let rest_len = rest.unicode_len();
    let mut i: usize = 0;
    while i < rest_len && !is_digit_char(rest.get_char(i))
        invariant
            rest_len == rest@.len(),
            0 <= i <= rest_len,
            forall|j: int| 0 <= j < i ==> !is_digit(rest@[j]),
        decreases rest_len - i,
    {
        i += 1;
    }
    proof {
        lemma_first_digit(rest@);
    }
    if i == rest_len {
        return None;
    }
    let d = i;
    proof {
        match spec_first_digit(rest@) {
            Some(fd) => {
                if fd < d {
                    assert(!is_digit(rest@[fd]));
                }
                if d < fd {
                    assert(!is_digit(rest@[d as int]));
                }
            },
            None => {
                assert(!is_digit(rest@[d as int]));
            },
        }
        assert(spec_first_digit(rest@) == Some(d as int));
    }
    let ghost tail = rest@.subrange(d as int, rest@.len() as int);
    let ghost run = spec_digit_run(tail);
    proof {
        lemma_digit_run(tail);
        assert(forall|j: int| 0 <= j < tail.len() ==> tail[j] == rest@[d + j]);
    }
    let mut acc: u64 = 0;
    let mut k: usize = d;
    while k < rest_len && is_digit_char(rest.get_char(k))
        invariant
            rest_len == rest@.len(),
            spec_find(json@, spec_marker(key@)) == Some(m as int),
            rest@ == json@.subrange(m + spec_marker(key@).len(), json@.len() as int),
            spec_first_digit(rest@) == Some(d as int),
            d <= k <= rest_len,
            tail == rest@.subrange(d as int, rest@.len() as int),
            run == spec_digit_run(tail),
            0 <= run <= tail.len(),
            forall|j: int| 0 <= j < run ==> is_digit(tail[j]),
            run < tail.len() ==> !is_digit(tail[run]),
            forall|j: int| 0 <= j < tail.len() ==> tail[j] == rest@[d + j],
            k - d <= run,
            acc == spec_digits_val(rest@.subrange(d as int, k as int)),
            acc <= u32::MAX,
        decreases rest_len - k,
    {
        let dv = digit_value(rest.get_char(k));
        proof {
            let pre = rest@.subrange(d as int, k as int);
            let post = rest@.subrange(d as int, k as int + 1);
            assert(post.drop_last() =~= pre);
            assert(post.last() == rest@[k as int]);
            if k - d == run {
                assert(is_digit(tail[k - d]));
            }
        }
        let newacc = acc * 10 + dv as u64;
        if newacc > 0xFFFF_FFFFu64 {
            proof {
                let full = rest@.subrange(d as int, d + run);
                lemma_digits_val_monotone(full, k + 1 - d);
                assert(full.subrange(0, k + 1 - d) =~= rest@.subrange(d as int, k as int + 1));
                assert(spec_digits_val(full) > u32::MAX);
            }
            return None;
        }
        acc = newacc;
        k += 1;
    }
    proof {
        if k < rest_len {
            assert(!is_digit(tail[k - d]));
        }
        assert(k - d == run);
        assert(rest@.subrange(d as int, k as int) =~= rest@.subrange(d as int, d + run));
    }
    Some(acc as u32)
}

/// Extracts the boolean value of `key` from `json`: scans for the leftmost
/// `"key":` marker and accepts a literal `true` or `false` after optional
/// whitespace.
pub fn extract_json_bool(json: &str, key: &str) -> (r: Option<bool>)
    ensures
        r == spec_extract_bool(json@, key@),
{
    let marker = String::from_str("\"").concat(key).concat("\":");
    proof {
        assert(marker@ =~= spec_marker(key@));
    }
    let m = match find_sub(json, marker.as_str()) {
        Some(m) => m,
        None => {
            return None;
        },
    };
    let json_len = json.unicode_len();
    let marker_len = marker.as_str().unicode_len();
    proof {
        lemma_spec_find_first(json@, marker@);
    }
    let rest = json.substring_char(m + marker_len, json_len);
    let rest_len = rest.unicode_len();
    let mut i: usize = 0;
    while i < rest_len && is_ws_char(rest.get_char(i))
        invariant
            rest_len == rest@.len(),
            0 <= i <= rest_len,
            forall|j: int| 0 <= j < i ==> is_ws(rest@[j]),
        decreases rest_len - i,
    {
        i += 1;
    }
    proof {
        lemma_skip_ws(rest@);
        let sw = spec_skip_ws(rest@);
        if sw < i {
            assert(is_ws(rest@[sw]));
        }
        if i < sw {
            assert(is_ws(rest@[i as int]));
        }
        assert(i == sw);
    }
    let trimmed = rest.substring_char(i, rest_len);
    if starts_with_sub(trimmed, "true") {
        Some(true)
    } else if starts_with_sub(trimmed, "false") {
        Some(false)
    } else {
        None
    }
}

/// A command received from the bus, as a flat field set. The three string
/// fields are required on decode; the rest are optional.
pub struct Command {
    pub from: String,
    pub to: String,
    pub command: String,
    pub led_id: Option<u8>,
    pub duration: Option<u64>,
    pub emergency: Option<bool>,
    pub security: Option<String>,
}

/// Mathematical image of a `Command`: the string fields as character
/// sequences.
#[verifier::ext_equal]
pub ghost struct CommandView {
    pub from: Seq<char>,
    pub to: Seq<char>,
    pub command: Seq<char>,
    pub led_id: Option<u8>,
    pub duration: Option<u64>,
    pub emergency: Option<bool>,
    pub security: Option<Seq<char>>,
}

impl View for Command {
    type V = CommandView;

    open spec fn view(&self) -> CommandView {
        CommandView {
            from: self.from@,
            to: self.to@,
            command: self.command@,
            led_id: self.led_id,
            duration: self.duration,
            emergency: self.emergency,
            security: match self.security {
                Some(s) => Some(s@),
                None => None,
            },
        }
    }
}

/// The command a payload decodes to: `None` exactly when one of the required
/// fields `from`, `to`, `command` is missing. Optional fields that are
/// missing or unparseable resolve to absent. A numeric `led_id` is reduced
/// modulo 256 to fit its one-byte field.
pub open spec fn spec_decode(j: Seq<char>) -> Option<CommandView> {
    match (
        spec_extract_string(j, ("from")@),
        spec_extract_string(j, ("to")@),
        spec_extract_string(j, ("command")@),
    ) {
        (Some(from), Some(to), Some(command)) => Some(
            CommandView {
                from,
                to,
                command,
                led_id: match spec_extract_number(j, ("led_id")@) {
                    Some(n) => Some((n % 256) as u8),
                    None => None,
                },
                duration: match spec_extract_number(j, ("duration")@) {
                    Some(n) => Some(n as u64),
                    None => None,
                },
                emergency: spec_extract_bool(j, ("emergency")@),
                security: spec_extract_string(j, ("security")@),
            },
        ),
        _ => None,
    }
}

impl Command {
    /// Decodes a payload into a command, tolerating extra fields, field
    /// reordering and unparseable optional fields; fails only when a
    /// required field is missing.
    pub fn from_json(json_str: &str) -> (r: Option<Command>)
        ensures
            match r {
                Some(c) => spec_decode(json_str@) == Some(c@),
                None => spec_decode(json_str@) is None,
            },
    {
        let from = extract_json_string(json_str, "from");
        let to = extract_json_string(json_str, "to");
        let command = extract_json_string(json_str, "command");
        match (from, to, command) {
            (Some(from), Some(to), Some(command)) => {
                let led_id = match extract_json_number(json_str, "led_id") {
                    Some(n) => Some((n % 256) as u8),
                    None => None,
                };
                let duration = match extract_json_number(json_str, "duration") {
                    Some(n) => Some(n as u64),
                    None => None,
                };
                let emergency = extract_json_bool(json_str, "emergency");
                let security = extract_json_string(json_str, "security");
                Some(Command { from, to, command, led_id, duration, emergency, security })
            },
            _ => None,
        }
    }
}

/// Why a decoded command's parameters were rejected before dispatch.
#[derive(Clone, Copy, Debug, PartialEq, Eq, Structural)]
pub enum ParamError {
    /// An LED id outside 1..=3.
    LedIdOutOfRange,
    /// A duration above 10000 ms.
    DurationTooLong,
    /// A duration below 50 ms.
    DurationTooShort,
}

/// Parameter check a command must pass before it is queued: an LED id, when
/// present, lies in 1..=3, and a duration, when present, lies in 50..=10000
/// milliseconds.
pub open spec fn spec_validate_parameters(c: CommandView) -> Result<(), ParamError> {
    if c.led_id matches Some(id) && !(1 <= id <= 3) {
        Err(ParamError::LedIdOutOfRange)
    } else if c.duration matches Some(d) && d > 10000 {
        Err(ParamError::DurationTooLong)
    } else if c.duration matches Some(d) && d < 50 {
        Err(ParamError::DurationTooShort)
    } else {
        Ok(())
    }
}

impl Command {
    /// Checks the command's optional parameters against their allowed
    /// ranges.
    pub fn validate_parameters(&self) -> (r: Result<(), ParamError>)
        ensures
            r == spec_validate_parameters(self@),
    {
        if let Some(led_id) = self.led_id {
            if led_id < 1 || led_id > 3 {
                return Err(ParamError::LedIdOutOfRange);
            }
        }
        if let Some(duration) = self.duration {
            if duration > 10000 {
                return Err(ParamError::DurationTooLong);
            }
            if duration < 50 {
                return Err(ParamError::DurationTooShort);
            }
        }
        Ok(())
    }
}

} // verus!

//! Deterministic builders for every outbound message of the two nodes:
//! the command topic payload and the button, card, status, heartbeat and
//! sensor-data event payloads, plus the fixed-capacity byte writer the
//! nodes publish through.

use vstd::prelude::*;
use vstd::string::*;

use crate::codec::{Command, CommandView};

verus! {

/// The character for one decimal digit value.
pub open spec fn char_of_digit(d: nat) -> char {
    if d == 0 {
        '0'
    } else if d == 1 {
        '1'
    } else if d == 2 {
        '2'
    } else if d == 3 {
        '3'
    } else if d == 4 {
        '4'
    } else if d == 5 {
        '5'
    } else if d == 6 {
        '6'
    } else if d == 7 {
        '7'
    } else if d == 8 {
        '8'
    } else {
        '9'
    }
}

/// The decimal digits of `n`, most significant first, without leading
/// zeros (a single `0` for zero).
pub open spec fn spec_dec(n: nat) -> Seq<char>
    decreases n,
{
    if n < 10 {
        seq![char_of_digit(n)]
    } else {
        spec_dec(n / 10) + seq![char_of_digit(n % 10)]
    }
}

/// The character for one hexadecimal digit value, uppercase.
pub open spec fn char_of_hex(d: nat) -> char {
    if d < 10 {
        char_of_digit(d)
    } else if d == 10 {
        'A'
    } else if d == 11 {
        'B'
    } else if d == 12 {
        'C'
    } else if d == 13 {
        'D'
    } else if d == 14 {
        'E'
    } else {
        'F'
    }
}

/// Two uppercase hexadecimal digits for one byte.
pub open spec fn spec_hex2(b: u8) -> Seq<char> {
    seq![char_of_hex(b as nat / 16), char_of_hex(b as nat % 16)]
}

/// The literal text of a boolean.
pub open spec fn spec_bool_text(b: bool) -> Seq<char> {
    if b {
        ("true")@
    } else {
        ("false")@
    }
}

/// Appends one decimal digit character to `s`.
fn append_digit(s: &mut String, d: u64)
    requires
        d < 10,
    ensures
        final(s)@ == old(s)@ + seq![char_of_digit(d as nat)],
{
    proof {
        reveal_strlit("0");
        reveal_strlit("1");
        reveal_strlit("2");
        reveal_strlit("3");
        reveal_strlit("4");
        reveal_strlit("5");
        reveal_strlit("6");
        reveal_strlit("7");
        reveal_strlit("8");
        reveal_strlit("9");
    }
    if d == 0 {
        s.append("0");
    } else if d == 1 {
        s.append("1");
    } else if d == 2 {
        s.append("2");
    } else if d == 3 {
        s.append("3");
    } else if d == 4 {
        s.append("4");
    } else if d == 5 {
        s.append("5");
    } else if d == 6 {
        s.append("6");
    } else if d == 7 {
        s.append("7");
    } else if d == 8 {
        s.append("8");
    } else {
        s.append("9");
    }
    proof {
        assert(final(s)@ =~= old(s)@ + seq![char_of_digit(d as nat)]);
    }
}

/// Appends the decimal digits of `n` to `s`.
pub fn append_dec(s: &mut String, n: u64)
    ensures
        final(s)@ == old(s)@ + spec_dec(n as nat),
    decreases n,
{
    if n >= 10 {
        append_dec(s, n / 10);
        append_digit(s, n % 10);
        proof {
            assert(final(s)@ =~= old(s)@ + spec_dec(n as nat));
        }
    } else {
        append_digit(s, n);
    }
}

/// Appends one uppercase hexadecimal digit character to `s`.
fn append_hex_digit(s: &mut String, d: u8)
    requires
        d < 16,
    ensures
        final(s)@ == old(s)@ + seq![char_of_hex(d as nat)],
{
    proof {
        reveal_strlit("A");
        reveal_strlit("B");
        reveal_strlit("C");
        reveal_strlit("D");
        reveal_strlit("E");
        reveal_strlit("F");
    }
    if d < 10 {
        append_digit(s, d as u64);
    } else if d == 10 {
        s.append("A");
    } else if d == 11 {
        s.append("B");
    } else if d == 12 {
        s.append("C");
    } else if d == 13 {
        s.append("D");
    } else if d == 14 {
        s.append("E");
    } else {
        s.append("F");
    }
    proof {
        assert(final(s)@ =~= old(s)@ + seq![char_of_hex(d as nat)]);
    }
}

/// Appends the two uppercase hexadecimal digits of one byte to `s`.
pub fn append_hex2(s: &mut String, b: u8)
    ensures
        final(s)@ == old(s)@ + spec_hex2(b),
{
    append_hex_digit(s, b / 16);
    append_hex_digit(s, b % 16);
    proof {
        assert(final(s)@ =~= old(s)@ + spec_hex2(b));
    }
}

/// Appends the literal text of a boolean to `s`.
pub fn append_bool(s: &mut String, b: bool)
    ensures
        final(s)@ == old(s)@ + spec_bool_text(b),
{
    if b {
        s.append("true");
    } else {
        s.append("false");
    }
}

/// The encoding of a command: a flat JSON object with the fields in fixed
/// order, each optional field present exactly when it is set.
pub open spec fn spec_encode(c: CommandView) -> Seq<char> {
    ("{\"from\":\"")@ + c.from + ("\",\"to\":\"")@ + c.to + ("\",\"command\":\"")@ + c.command
        + ("\"")@ + (match c.led_id {
        Some(n) => (",\"led_id\":")@ + spec_dec(n as nat),
        None => Seq::<char>::empty(),
    }) + (match c.duration {
        Some(d) => (",\"duration\":")@ + spec_dec(d as nat),
        None => Seq::<char>::empty(),
    }) + (match c.emergency {
        Some(b) => (",\"emergency\":")@ + spec_bool_text(b),
        None => Seq::<char>::empty(),
    }) + (match c.security {
        Some(s) => (",\"security\":\"")@ + s + ("\"")@,
        None => Seq::<char>::empty(),
    }) + ("}")@
}

/// Why encoding failed.
#[derive(Clone, Copy, Debug, PartialEq, Eq, Structural)]
pub enum EncodeError {
    /// The encoded text does not fit the caller's buffer capacity.
    BufferTooSmall,
}

/// Encodes a command as a flat JSON object with fields in fixed order.
/// Fails exactly when the encoded text is longer than `capacity`
/// characters; a too-small buffer is reported rather than a truncated
/// message being produced.
pub fn encode_command(c: &Command, capacity: usize) -> (r: Result<String, EncodeError>)
    ensures
        match r {
            Ok(s) => s@ == spec_encode(c@) && spec_encode(c@).len() <= capacity,
            Err(e) => e == EncodeError::BufferTooSmall && spec_encode(c@).len() > capacity,
        },
{
    let mut s = String::new();
    s.append("{\"from\":\"");
    s.append(c.from.as_str());
    s.append("\",\"to\":\"");
    s.append(c.to.as_str());
    s.append("\",\"command\":\"");
    s.append(c.command.as_str());
    s.append("\"");
    if let Some(n) = c.led_id {
        s.append(",\"led_id\":");
        append_dec(&mut s, n as u64);
    }
    if let Some(d) = c.duration {
        s.append(",\"duration\":");
        append_dec(&mut s, d);
    }
    if let Some(b) = c.emergency {
        s.append(",\"emergency\":");
        append_bool(&mut s, b);
    }
    if let Some(sec) = &c.security {
        s.append(",\"security\":\"");
        s.append(sec.as_str());
        s.append("\"");
    }
    s.append("}");
    proof {
        assert(s@ =~= spec_encode(c@));
    }
    let len = s.as_str().unicode_len();
    if len <= capacity {
        Ok(s)
    } else {
        Err(EncodeError::BufferTooSmall)
    }
}

/// The button event payload: device id, button number, the fixed action
/// `pressed`, and a millisecond timestamp.
pub open spec fn spec_button_event(device: Seq<char>, button_id: u8, timestamp: u64) -> Seq<
    char,
> {
    ("{\"device\":\"")@ + device + ("\",\"button_id\":")@ + spec_dec(button_id as nat) + (
    ",\"action\":\"pressed\",\"timestamp\":")@ + spec_dec(timestamp as nat) + ("}")@
}

/// Builds the button event payload.
pub fn encode_button_event(device: &str, button_id: u8, timestamp: u64) -> (r: String)
    ensures
        r@ == spec_button_event(device@, button_id, timestamp),
{
    let mut s = String::new();
    s.append("{\"device\":\"");
    s.append(device);
    s.append("\",\"button_id\":");
    append_dec(&mut s, button_id as u64);
    s.append(",\"action\":\"pressed\",\"timestamp\":");
    append_dec(&mut s, timestamp);
    s.append("}");
    proof {
        assert(s@ =~= spec_button_event(device@, button_id, timestamp));
    }
    s
}

/// The card event payload: device id, the four identifier bytes of the UID
/// as eight uppercase hexadecimal characters without separators, and a
/// detection counter.
pub open spec fn spec_card_event(device: Seq<char>, uid: Seq<u8>, count: u32) -> Seq<char> {
    ("{\"device\":\"")@ + device + ("\",\"uid\":\"")@ + spec_hex2(uid[0]) + spec_hex2(uid[1])
        + spec_hex2(uid[2]) + spec_hex2(uid[3]) + ("\",\"count\":")@ + spec_dec(count as nat) + (
    "}")@
}

/// Builds the card event payload from a five-byte UID; only the four
/// identifier bytes are written.
pub fn encode_card_event(device: &str, uid: &[u8; 5], count: u32) -> (r: String)
    ensures
        r@ == spec_card_event(device@, uid@, count),
{
    let mut s = String::new();
    s.append("{\"device\":\"");
    s.append(device);
    s.append("\",\"uid\":\"");
    append_hex2(&mut s, uid[0]);
    append_hex2(&mut s, uid[1]);
    append_hex2(&mut s, uid[2]);
    append_hex2(&mut s, uid[3]);
    s.append("\",\"count\":");
    append_dec(&mut s, count as u64);
    s.append("}");
    proof {
        assert(s@ =~= spec_card_event(device@, uid@, count));
    }
    s
}

/// The status payload: device id, the three LED states and a timestamp.
pub open spec fn spec_status(
    device: Seq<char>,
    led1: bool,
    led2: bool,
    led3: bool,
    timestamp: u64,
) -> Seq<char> {
    ("{\"device\":\"")@ + device + ("\",\"led1\":")@ + spec_bool_text(led1) + (",\"led2\":")@
        + spec_bool_text(led2) + (",\"led3\":")@ + spec_bool_text(led3) + (",\"timestamp\":")@
        + spec_dec(timestamp as nat) + ("}")@
}

/// Builds the status payload.
pub fn encode_status(device: &str, led1: bool, led2: bool, led3: bool, timestamp: u64) -> (r:
    String)
    ensures
        r@ == spec_status(device@, led1, led2, led3, timestamp),
{
    let mut s = String::new();
    s.append("{\"device\":\"");
    s.append(device);
    s.append("\",\"led1\":");
    append_bool(&mut s, led1);
    s.append(",\"led2\":");
    append_bool(&mut s, led2);
    s.append(",\"led3\":");
    append_bool(&mut s, led3);
    s.append(",\"timestamp\":");
    append_dec(&mut s, timestamp);
    s.append("}");
    proof {
        assert(s@ =~= spec_status(device@, led1, led2, led3, timestamp));
    }
    s
}

/// The heartbeat payload: device id, the fixed status `online` and the
/// uptime in seconds.
pub open spec fn spec_heartbeat(device: Seq<char>, uptime_s: u64) -> Seq<char> {
    ("{\"device\":\"")@ + device + ("\",\"status\":\"online\",\"uptime\":")@ + spec_dec(
        uptime_s as nat,
    ) + ("}")@
}

/// Builds the heartbeat payload.
pub fn encode_heartbeat(device: &str, uptime_s: u64) -> (r: String)
    ensures
        r@ == spec_heartbeat(device@, uptime_s),
{
    let mut s = String::new();
    s.append("{\"device\":\"");
    s.append(device);
    s.append("\",\"status\":\"online\",\"uptime\":");
    append_dec(&mut s, uptime_s);
    s.append("}");
    proof {
        assert(s@ =~= spec_heartbeat(device@, uptime_s));
    }
    s
}

/// The sensor-data payload: device id, a temperature in tenths of a degree
/// written with one decimal place, the fixed humidity `0.0`, and a
/// timestamp.
pub open spec fn spec_sensor_data(device: Seq<char>, temp_tenths: u64, timestamp: u64) -> Seq<
    char,
> {
    ("{\"device\":\"")@ + device + ("\",\"temp\":")@ + spec_dec(temp_tenths as nat / 10) + (".")@
        + seq![char_of_digit(temp_tenths as nat % 10)] + (",\"hum\":0.0,\"timestamp\":")@
        + spec_dec(timestamp as nat) + ("}")@
}

/// Builds the sensor-data payload from a temperature given in tenths of a
/// degree.
pub fn encode_sensor_data(device: &str, temp_tenths: u64, timestamp: u64) -> (r: String)
    ensures
        r@ == spec_sensor_data(device@, temp_tenths, timestamp),
{
    let mut s = String::new();
    s.append("{\"device\":\"");
    s.append(device);
    s.append("\",\"temp\":");
    append_dec(&mut s, temp_tenths / 10);
    s.append(".");
    append_digit(&mut s, temp_tenths % 10);
    s.append(",\"hum\":0.0,\"timestamp\":");
    append_dec(&mut s, timestamp);
    s.append("}");
    proof {
        assert(s@ =~= spec_sensor_data(device@, temp_tenths, timestamp));
    }
    s
}

/// A bounded byte buffer messages are assembled into before publishing:
/// writes succeed only while the fixed capacity is not exceeded, so an
/// overlong message is reported rather than truncated.
pub struct ArrayWriter {
    buf: Vec<u8>,
    cap: usize,
}

impl View for ArrayWriter {
    type V = Seq<u8>;

    closed spec fn view(&self) -> Seq<u8> {
        self.buf@
    }
}

impl ArrayWriter {
    /// The fixed capacity the writer was created with.
    pub closed spec fn spec_cap(&self) -> usize {
        self.cap
    }

    /// The written prefix never exceeds the capacity.
    pub open spec fn wf(&self) -> bool {
        self@.len() <= self.spec_cap()
    }

    /// Creates an empty writer with the given byte capacity.
    pub fn new(capacity: usize) -> (r: ArrayWriter)
        ensures
            r@ == Seq::<u8>::empty(),
            r.spec_cap() == capacity,
            r.wf(),
    {
        ArrayWriter { buf: Vec::new(), cap: capacity }
    }

    /// Number of bytes written so far.
    pub fn pos(&self) -> (r: usize)
        ensures
            r == self@.len(),
    {
        self.buf.len()
    }

    /// Appends the UTF-8 bytes of `s` when they fit; otherwise leaves the
    /// buffer unchanged and reports the overflow.
    pub fn write_str(&mut self, s: &str) -> (r: Result<(), EncodeError>)
        requires
            old(self).wf(),
        ensures
            final(self).wf(),
            final(self).spec_cap() == old(self).spec_cap(),
            if old(self)@.len() + s.spec_bytes().len() <= old(self).spec_cap() {
                r is Ok && final(self)@ == old(self)@ + s.spec_bytes()
            } else {
                r == Err::<(), EncodeError>(EncodeError::BufferTooSmall) && final(self)@ == old(
                    self,
                )@
            },
    {
        let bytes = s.as_bytes();
        if bytes.len() <= self.cap - self.buf.len() {
            self.buf.extend_from_slice(bytes);
            Ok(())
        } else {
            Err(EncodeError::BufferTooSmall)
        }
    }

    /// Hands the written bytes out.
    pub fn into_bytes(self) -> (r: Vec<u8>)
        ensures
            r@ == self@,
    {
        self.buf
    }
}

} // verus!

//! Card-acquisition protocol driver: REQUEST, ANTICOLLISION and HALT
//! primitives over a register-level byte transport, with bounded busy-poll
//! loops instead of blocking waits, so every call has a deterministic
//! worst-case latency.
//!
//! The transport is an injectable port whose methods promise nothing:
//! whatever the chip answers, the driver never surfaces a UID whose
//! checksum byte does not match, and never polls past its iteration cap.

use vstd::prelude::*;

verus! {

/// XOR block-check character over the four identifier bytes of a card
/// UID: a UID is sound exactly when its fifth byte equals this value.
pub open spec fn spec_bcc(b0: u8, b1: u8, b2: u8, b3: u8) -> u8 {
    (b0 ^ b1) ^ (b2 ^ b3)
}

/// Computes the UID checksum byte: the XOR of the four identifier bytes.
pub fn bcc(b0: u8, b1: u8, b2: u8, b3: u8) -> (r: u8)
    ensures
        r == spec_bcc(b0, b1, b2, b3),
{
    (b0 ^ b1) ^ (b2 ^ b3)
}

/// Chip command: no action, cancel current command.
pub const PCD_IDLE: u8 = 0x00;

/// Chip command: transmit the FIFO and receive the answer.
pub const PCD_TRANSCEIVE: u8 = 0x0C;

/// Card command: request idle cards, 7-bit short frame.
pub const PICC_REQIDL: u8 = 0x26;

/// Card command: anticollision, cascade level 1.
pub const PICC_ANTICOLL: u8 = 0x93;

/// Command register.
pub const COMMAND_REG: u8 = 0x01;

/// Communication interrupt-request register.
pub const COM_IRQ_REG: u8 = 0x04;

/// Divider interrupt-request register.
pub const DIV_IRQ_REG: u8 = 0x05;

/// Error register: collision, parity and CRC bits among others.
pub const ERROR_REG: u8 = 0x06;

/// FIFO data register.
pub const FIFO_DATA_REG: u8 = 0x09;

/// FIFO level register.
pub const FIFO_LEVEL_REG: u8 = 0x0A;

/// Bit-framing register: short-frame control and the start-send bit.
pub const BIT_FRAMING_REG: u8 = 0x0D;

/// Mode register: CRC preset.
pub const MODE_REG: u8 = 0x11;

/// Transmit-control register: the two antenna-driver bits.
pub const TX_CONTROL_REG: u8 = 0x14;

/// Transmit modulation register: the force-100%-ASK bit.
pub const TX_AUTO_REG: u8 = 0x15;

/// Timer mode register.
pub const T_MODE_REG: u8 = 0x2A;

/// Timer prescaler register.
pub const T_PRESCALER_REG: u8 = 0x2B;

/// Timer reload register, high byte.
pub const T_RELOAD_REG_H: u8 = 0x2C;

/// Timer reload register, low byte.
pub const T_RELOAD_REG_L: u8 = 0x2D;

/// Hard cap on the busy-poll loops: a deliberate latency bound in place of
/// a blocking wait.
pub const POLL_LIMIT: u32 = 2000;

/// The byte transport to the card-reader chip, together with its reset
/// line and the node's delay facility. Every transaction is a two-byte
/// frame; the methods promise nothing, so everything proved of the driver
/// holds whatever the chip answers.
pub trait Transport {
    /// Sends a write frame: the encoded address byte, then the value.
    fn write(&mut self, addr: u8, val: u8);

    /// Sends a read frame for the encoded address byte and returns the
    /// second response byte.
    fn read(&mut self, addr: u8) -> u8;

    /// Drives the chip's reset line.
    fn set_reset(&mut self, high: bool);

    /// Waits the given number of milliseconds.
    fn delay_ms(&mut self, ms: u32);
}

/// Wire encoding of a register index in a write frame: shifted left by
/// one, only the low seven bits of the shifted value significant.
pub open spec fn spec_write_address(reg: u8) -> u8 {
    (reg << 1) & 0x7e
}

/// Wire encoding of a register index in a read frame: as for a write, with
/// bit 7 set.
pub open spec fn spec_read_address(reg: u8) -> u8 {
    ((reg << 1) & 0x7e) | 0x80
}

/// The register index an encoded address byte denotes.
pub open spec fn spec_decode_address(addr: u8) -> u8 {
    (addr >> 1) & 0x3f
}

/// Decoding an encoded address recovers the register index, for every
/// seven-bit register index.
pub proof fn lemma_address_roundtrip(reg: u8)
    requires
        reg < 0x40,
    ensures
        spec_decode_address(spec_write_address(reg)) == reg,
        spec_decode_address(spec_read_address(reg)) == reg,
{
    assert((((reg << 1) & 0x7e) >> 1) & 0x3f == reg && ((((reg << 1) & 0x7e) | 0x80) >> 1) & 0x3f
        == reg) by (bit_vector)
        requires
            reg < 0x40,
    ;
}

/// Computes the write-frame address byte for a register.
pub fn write_address(reg: u8) -> (a: u8)
    ensures
        a == spec_write_address(reg),
{
    (reg << 1) & 0x7e
}

/// Computes the read-frame address byte for a register.
pub fn read_address(reg: u8) -> (a: u8)
    ensures
        a == spec_read_address(reg),
{
    ((reg << 1) & 0x7e) | 0x80
}

/// Computes the register index an encoded address byte denotes.
pub fn decode_address(addr: u8) -> (r: u8)
    ensures
        r == spec_decode_address(addr),
{
    (addr >> 1) & 0x3f
}

/// None of the collision, parity and CRC error bits is set.
pub open spec fn spec_error_free(error: u8) -> bool {
    error & 0x1b == 0
}

/// Decides whether the error register shows none of the collision, parity
/// and CRC bits.
pub fn error_free(error: u8) -> (r: bool)
    ensures
        r == spec_error_free(error),
{
    (error & 0x1b) == 0
}

/// A polling cycle stops when an interrupt bit of interest fires, when the
/// FIFO holds enough bytes, or when the iteration budget runs out.
pub open spec fn spec_poll_done(irq: u8, fifo_level: u8, needed: u8) -> bool {
    (irq & 0x01) != 0 || (irq & 0x20) != 0 || fifo_level >= needed
}

/// Decides whether a polling cycle is over, short of its iteration budget.
pub fn poll_done(irq: u8, fifo_level: u8, needed: u8) -> (r: bool)
    ensures
        r == spec_poll_done(irq, fifo_level, needed),
{
    (irq & 0x01) != 0 || (irq & 0x20) != 0 || fifo_level >= needed
}

/// The REQUEST decision on what one polling cycle produced: the two
/// answer bytes are surfaced exactly when the poll did not run out of
/// budget, the FIFO held at least two bytes, and none of the collision,
/// parity and CRC error bits is set.
pub fn request_outcome(timeout: u32, fifo_level: u8, error: u8, a1: u8, a2: u8) -> (r: Option<
    [u8; 2],
>)
    ensures
        (timeout != 0 && fifo_level >= 2 && spec_error_free(error)) ==> (r matches Some(a) && a@
            == seq![a1, a2]),
        !(timeout != 0 && fifo_level >= 2 && spec_error_free(error)) ==> r is None,
{
    if timeout != 0 && fifo_level >= 2 && error_free(error) {
        let a = [a1, a2];
        proof {
            assert(a@ =~= seq![a1, a2]);
        }
        Some(a)
    } else {
        None
    }
}

/// The ANTICOLLISION decision on what one polling cycle produced: the
/// five answer bytes are surfaced, unmodified and in order, exactly when
/// the poll did not run out of budget, the FIFO held at least five bytes,
/// no error bit is set, and the fifth byte is the XOR checksum of the
/// first four; a failed checksum discards the answer.
pub fn anticoll_outcome(timeout: u32, fifo_level: u8, error: u8, uid: [u8; 5]) -> (r: Option<
    [u8; 5],
>)
    ensures
        (timeout != 0 && fifo_level >= 5 && spec_error_free(error) && uid@[4] == spec_bcc(
            uid@[0],
            uid@[1],
            uid@[2],
            uid@[3],
        )) ==> r == Some(uid),
        !(timeout != 0 && fifo_level >= 5 && spec_error_free(error) && uid@[4] == spec_bcc(
            uid@[0],
            uid@[1],
            uid@[2],
            uid@[3],
        )) ==> r is None,
{
    if timeout != 0 && fifo_level >= 5 && error_free(error) && bcc(uid[0], uid[1], uid[2], uid[3])
        == uid[4] {
        Some(uid)
    } else {
        None
    }
}

/// The card-reader driver: owns the transport and speaks the chip's
/// command/response protocol over it.
pub struct Mfrc522<T: Transport> {
    pub transport: T,
}

impl<T: Transport> Mfrc522<T> {
    /// Wraps a transport.
    pub fn new(transport: T) -> (r: Mfrc522<T>)
        ensures
            r.transport == transport,
    {
        Mfrc522 { transport }
    }

    /// Writes one chip register: a two-byte frame of encoded address and
    /// value. Best effort; transport failures are indistinguishable from
    /// "no card" at this layer.
    pub fn write_register(&mut self, reg: u8, value: u8) {
        let addr = write_address(reg);
        self.transport.write(addr, value);
    }

    /// Reads one chip register: a read frame for the encoded address, the
    /// answer's second byte being the value.
    pub fn read_register(&mut self, reg: u8) -> u8 {
        let addr = read_address(reg);
        self.transport.read(addr)
    }

    /// Brings the chip from an unknown state to idle-armed: hard reset via
    /// the reset line, soft reset via the command register, timer
    /// programming, forced 100%-ASK modulation, CRC preset, and antenna
    /// on. Failures are silently absorbed.
    pub fn init(&mut self) {
        self.transport.set_reset(false);
        self.transport.delay_ms(50);
        self.transport.set_reset(true);
        self.transport.delay_ms(50);
        self.write_register(COMMAND_REG, 0x0f);
        self.transport.delay_ms(50);
        self.write_register(T_MODE_REG, 0x8d);
        self.write_register(T_PRESCALER_REG, 0x3e);
        self.write_register(T_RELOAD_REG_L, 30);
        self.write_register(T_RELOAD_REG_H, 0);
        self.write_register(TX_AUTO_REG, 0x40);
        self.write_register(MODE_REG, 0x3d);
        self.antenna_on();
    }

    /// Sets the two antenna-driver bits in the transmit-control register
    /// if they are not already set.
    pub fn antenna_on(&mut self) {
        let value = self.read_register(TX_CONTROL_REG);
        if (value & 0x03) != 0x03 {
            self.write_register(TX_CONTROL_REG, value | 0x03);
        }
    }

    /// Polls the communication-IRQ and FIFO-level registers until the
    /// cycle is done or the iteration budget runs out. Returns the
    /// remaining budget (zero on timeout) and the last FIFO level.
    fn poll(&mut self, needed: u8) -> (r: (u32, u8)) {
        let mut timeout: u32 = POLL_LIMIT;
        let mut fifo_level: u8 = 0;
        loop
            invariant_except_break
                1 <= timeout <= POLL_LIMIT,
            ensures
                timeout <= POLL_LIMIT,
            decreases timeout,
        {
            let irq = self.read_register(COM_IRQ_REG);
            fifo_level = self.read_register(FIFO_LEVEL_REG);
            timeout -= 1;
            if timeout == 0 || poll_done(irq, fifo_level, needed) {
                break;
            }
        }
        (timeout, fifo_level)
    }

    /// Issues a REQUEST-IDLE: clears the interrupt-request registers, sets
    /// 7-bit short framing, flushes the FIFO, transceives the single-byte
    /// request command, and polls with a bounded budget. The error
    /// register and the two answer bytes are read after every poll, and
    /// `request_outcome` — whose contract is exact — decides what is
    /// surfaced: the answer-to-request only when the poll did not time
    /// out, the FIFO held at least two bytes, and the error register
    /// shows none of the collision, parity and CRC bits; otherwise
    /// nothing, covering transport failures and absent cards alike.
    pub fn request(&mut self) -> (r: Option<[u8; 2]>) {
        self.write_register(COM_IRQ_REG, 0x7f);
        self.write_register(DIV_IRQ_REG, 0x7f);
        self.write_register(BIT_FRAMING_REG, 0x07);
        self.write_register(FIFO_LEVEL_REG, 0x80);
        self.write_register(FIFO_DATA_REG, PICC_REQIDL);
        self.write_register(COMMAND_REG, PCD_TRANSCEIVE);
        let val = self.read_register(BIT_FRAMING_REG);
        self.write_register(BIT_FRAMING_REG, val | 0x80);
        let (timeout, fifo_level) = self.poll(2);
        let val = self.read_register(BIT_FRAMING_REG);
        self.write_register(BIT_FRAMING_REG, val & 0x7f);
        let error = self.read_register(ERROR_REG);
        let atqa1 = self.read_register(FIFO_DATA_REG);
        let atqa2 = self.read_register(FIFO_DATA_REG);
        request_outcome(timeout, fifo_level, error, atqa1, atqa2)
    }

    /// Issues a single-pass ANTICOLLISION: transceives the two-byte
    /// anticollision command and expects a five-byte answer. The error
    /// register and the five answer bytes are read after every poll, and
    /// `anticoll_outcome` — whose contract is exact — decides what is
    /// surfaced: the five bytes, unmodified and in order, only for a
    /// completed, error-free exchange whose fifth byte equals the XOR of
    /// the four identifier bytes; a UID failing that check is discarded,
    /// never surfaced. Multi-card collision resolution is out of scope:
    /// one card at a time is assumed.
    pub fn anticoll(&mut self) -> (r: Option<[u8; 5]>)
        ensures
            r matches Some(uid) ==> uid@[4] == spec_bcc(uid@[0], uid@[1], uid@[2], uid@[3]),
    {
        self.write_register(COM_IRQ_REG, 0x7f);
        self.write_register(DIV_IRQ_REG, 0x7f);
        self.write_register(BIT_FRAMING_REG, 0x00);
        self.write_register(FIFO_LEVEL_REG, 0x80);
        self.write_register(FIFO_DATA_REG, PICC_ANTICOLL);
        self.write_register(FIFO_DATA_REG, 0x20);
        self.write_register(COMMAND_REG, PCD_TRANSCEIVE);
        let val = self.read_register(BIT_FRAMING_REG);
        self.write_register(BIT_FRAMING_REG, val | 0x80);
        let (timeout, fifo_level) = self.poll(5);
        let val = self.read_register(BIT_FRAMING_REG);
        self.write_register(BIT_FRAMING_REG, val & 0x7f);
        let error = self.read_register(ERROR_REG);
        let b0 = self.read_register(FIFO_DATA_REG);
        let b1 = self.read_register(FIFO_DATA_REG);
        let b2 = self.read_register(FIFO_DATA_REG);
        let b3 = self.read_register(FIFO_DATA_REG);
        let b4 = self.read_register(FIFO_DATA_REG);
        anticoll_outcome(timeout, fifo_level, error, [b0, b1, b2, b3, b4])
    }

    /// Issues a HALT: flushes the FIFO, transceives the two-byte halt
    /// command, and waits a fixed settle delay. Best effort, no answer
    /// expected.
    pub fn halt(&mut self) {
        self.write_register(FIFO_LEVEL_REG, 0x80);
        self.write_register(FIFO_DATA_REG, 0x50);
        self.write_register(FIFO_DATA_REG, 0x00);
        self.write_register(COMMAND_REG, PCD_TRANSCEIVE);
        self.transport.delay_ms(10);
    }
}

/// A scripted chip connection for bench runs: register reads answer from
/// plain fields, FIFO reads pop scripted bytes in order, and only the
/// bit-framing and transmit-control registers accept writes.
pub struct ScriptedTransport {
    pub com_irq: u8,
    pub fifo_level: u8,
    pub error: u8,
    pub bit_framing: u8,
    pub tx_control: u8,
    pub fifo: Vec<u8>,
    pub fifo_pos: usize,
}

impl ScriptedTransport {
    /// Scripts a connection whose polls answer with the given IRQ, FIFO
    /// level and error register values, and whose FIFO holds the given
    /// bytes.
    pub fn new(com_irq: u8, fifo_level: u8, error: u8, fifo: Vec<u8>) -> (r: ScriptedTransport)
        ensures
            r.com_irq == com_irq,
            r.fifo_level == fifo_level,
            r.error == error,
            r.fifo == fifo,
            r.fifo_pos == 0,
    {
        ScriptedTransport {
            com_irq,
            fifo_level,
            error,
            bit_framing: 0,
            tx_control: 0,
            fifo,
            fifo_pos: 0,
        }
    }
}

impl Transport for ScriptedTransport {
    fn write(&mut self, addr: u8, val: u8) {
        let reg = decode_address(addr);
        if reg == BIT_FRAMING_REG {
            self.bit_framing = val;
        } else if reg == TX_CONTROL_REG {
            self.tx_control = val;
        }
    }

    fn read(&mut self, addr: u8) -> u8 {
        let reg = decode_address(addr);
        if reg == COM_IRQ_REG {
            self.com_irq
        } else if reg == FIFO_LEVEL_REG {
            self.fifo_level
        } else if reg == ERROR_REG {
            self.error
        } else if reg == BIT_FRAMING_REG {
            self.bit_framing
        } else if reg == TX_CONTROL_REG {
            self.tx_control
        } else if reg == FIFO_DATA_REG {
            if self.fifo_pos < self.fifo.len() {
                let b = self.fifo[self.fifo_pos];
                self.fifo_pos = self.fifo_pos + 1;
                b
            } else {
                0
            }
        } else {
            0
        }
    }

    fn set_reset(&mut self, high: bool) {
        let _ = high;
    }

    fn delay_ms(&mut self, ms: u32) {
        let _ = ms;
    }
}

} // verus!

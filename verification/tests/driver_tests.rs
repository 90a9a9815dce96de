use esplink::driver::{
    anticoll_outcome, read_address, request_outcome, write_address, Mfrc522, ScriptedTransport,
    BIT_FRAMING_REG, COM_IRQ_REG, ERROR_REG, FIFO_DATA_REG, FIFO_LEVEL_REG, TX_CONTROL_REG,
};

fn bcc_of(b: &[u8; 4]) -> u8 {
    b[0] ^ b[1] ^ b[2] ^ b[3]
}

#[test]
fn write_address_shifts_left_and_masks() {
    assert_eq!(write_address(0x0A), 0x14);
    assert_eq!(write_address(0x01), 0x02);
    assert_eq!(write_address(0x2D), 0x5A);
}

#[test]
fn read_address_sets_bit_seven() {
    assert_eq!(read_address(0x0A), 0x94);
    assert_eq!(read_address(0x01), 0x82);
    assert_eq!(read_address(0x14), 0xA8);
}

#[test]
fn register_constants_cover_the_protocol() {
    assert_eq!(COM_IRQ_REG, 0x04);
    assert_eq!(ERROR_REG, 0x06);
    assert_eq!(FIFO_DATA_REG, 0x09);
    assert_eq!(FIFO_LEVEL_REG, 0x0A);
    assert_eq!(BIT_FRAMING_REG, 0x0D);
}

#[test]
fn init_turns_the_antenna_on() {
    let t = ScriptedTransport::new(0, 0, 0, Vec::new());
    let mut rfid = Mfrc522::new(t);
    rfid.init();
    assert_eq!(rfid.transport.tx_control, 0x03);
}

#[test]
fn request_returns_none_when_poll_never_completes() {
    // IRQ stays clear and the FIFO stays empty: the 2000-iteration budget
    // runs out and no answer is surfaced.
    let t = ScriptedTransport::new(0x00, 0, 0x00, Vec::new());
    let mut rfid = Mfrc522::new(t);
    assert_eq!(rfid.request(), None);
}

#[test]
fn request_returns_atqa_when_fifo_fills() {
    let t = ScriptedTransport::new(0x00, 2, 0x00, vec![0x04, 0x00]);
    let mut rfid = Mfrc522::new(t);
    assert_eq!(rfid.request(), Some([0x04, 0x00]));
}

#[test]
fn request_returns_none_on_error_bits() {
    // Collision bit set in the error register.
    let t = ScriptedTransport::new(0x00, 2, 0x08, vec![0x04, 0x00]);
    let mut rfid = Mfrc522::new(t);
    assert_eq!(rfid.request(), None);
}

#[test]
fn anticoll_returns_uid_with_matching_checksum() {
    let id = [0x12, 0x34, 0x56, 0x78];
    let fifo = vec![id[0], id[1], id[2], id[3], bcc_of(&id)];
    let t = ScriptedTransport::new(0x00, 5, 0x00, fifo);
    let mut rfid = Mfrc522::new(t);
    assert_eq!(rfid.anticoll(), Some([0x12, 0x34, 0x56, 0x78, 0x08]));
}

#[test]
fn anticoll_discards_uid_with_wrong_checksum() {
    // The fifth byte is deliberately wrong: the UID must never surface.
    let id = [0x12, 0x34, 0x56, 0x78];
    let bad = bcc_of(&id) ^ 0xFF;
    let t = ScriptedTransport::new(0x00, 5, 0x00, vec![id[0], id[1], id[2], id[3], bad]);
    let mut rfid = Mfrc522::new(t);
    assert_eq!(rfid.anticoll(), None);
}

#[test]
fn anticoll_returns_none_when_poll_never_completes() {
    let t = ScriptedTransport::new(0x00, 0, 0x00, Vec::new());
    let mut rfid = Mfrc522::new(t);
    assert_eq!(rfid.anticoll(), None);
}

#[test]
fn request_outcome_requires_budget_fifo_and_clean_errors() {
    // A completed, error-free poll surfaces exactly the two answer bytes.
    assert_eq!(request_outcome(1, 2, 0x00, 0x04, 0x00), Some([0x04, 0x00]));
    // Budget exhausted, FIFO short, or an error bit set: nothing surfaces.
    assert_eq!(request_outcome(0, 2, 0x00, 0x04, 0x00), None);
    assert_eq!(request_outcome(1, 1, 0x00, 0x04, 0x00), None);
    assert_eq!(request_outcome(1, 2, 0x10, 0x04, 0x00), None);
}

#[test]
fn anticoll_outcome_surfaces_exactly_the_checked_bytes() {
    let good = [0x12, 0x34, 0x56, 0x78, 0x12 ^ 0x34 ^ 0x56 ^ 0x78];
    assert_eq!(anticoll_outcome(5, 5, 0x00, good), Some(good));
    let bad = [0x12, 0x34, 0x56, 0x78, 0x00];
    assert_eq!(anticoll_outcome(5, 5, 0x00, bad), None);
    assert_eq!(anticoll_outcome(0, 5, 0x00, good), None);
    assert_eq!(anticoll_outcome(5, 4, 0x00, good), None);
    assert_eq!(anticoll_outcome(5, 5, 0x02, good), None);
}

#[test]
fn halt_runs_without_answer() {
    let t = ScriptedTransport::new(0x00, 0, 0x00, Vec::new());
    let mut rfid = Mfrc522::new(t);
    rfid.halt();
}

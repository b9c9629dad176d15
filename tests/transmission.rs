use rpi_lcd::transmit::{lower_all, send, write_4_bits, write_8_bits};
use rpi_lcd::{BusWidth, Level, Line, PinOp, Transfer};

fn pulse() -> Vec<PinOp> {
    vec![
        PinOp::Write(Line::Enable, Level::Low),
        PinOp::Delay(1),
        PinOp::Write(Line::Enable, Level::High),
        PinOp::Delay(1),
        PinOp::Write(Line::Enable, Level::Low),
        PinOp::Delay(100),
    ]
}

fn level(bit: u8) -> Level {
    if bit == 0 {
        Level::Low
    } else {
        Level::High
    }
}

fn nibble(value: u8) -> Vec<PinOp> {
    let mut ops: Vec<PinOp> = (0..4u8)
        .map(|i| PinOp::Write(Line::Data(4 + i), level((value >> i) & 1)))
        .collect();
    ops.extend(pulse());
    ops
}

#[test]
fn four_bit_send_of_a5_is_two_nibbles() {
    let mut out = Vec::new();
    send(BusWidth::Bits4, false, 0xA5, Level::Low, &mut out);
    let mut expected = vec![PinOp::Write(Line::Rs, Level::Low)];
    expected.extend(nibble(0xA));
    expected.extend(nibble(0x5));
    assert_eq!(out, expected);
    // 0xA on D4..D7: 0, 1, 0, 1; then 0x5: 1, 0, 1, 0.
    assert_eq!(out[1], PinOp::Write(Line::Data(4), Level::Low));
    assert_eq!(out[2], PinOp::Write(Line::Data(5), Level::High));
    assert_eq!(out[3], PinOp::Write(Line::Data(6), Level::Low));
    assert_eq!(out[4], PinOp::Write(Line::Data(7), Level::High));
    assert_eq!(out[11], PinOp::Write(Line::Data(4), Level::High));
    assert_eq!(out[12], PinOp::Write(Line::Data(5), Level::Low));
    let pulses = out.iter().filter(|op| **op == PinOp::Write(Line::Enable, Level::High)).count();
    assert_eq!(pulses, 2);
}

#[test]
fn eight_bit_send_of_a5_is_one_cycle() {
    let mut out = Vec::new();
    send(BusWidth::Bits8, false, 0xA5, Level::High, &mut out);
    let mut expected = vec![PinOp::Write(Line::Rs, Level::High)];
    for (i, bit) in [1u8, 0, 1, 0, 0, 1, 0, 1].iter().enumerate() {
        expected.push(PinOp::Write(Line::Data(i as u8), level(*bit)));
    }
    expected.extend(pulse());
    assert_eq!(out, expected);
    let pulses = out.iter().filter(|op| **op == PinOp::Write(Line::Enable, Level::High)).count();
    assert_eq!(pulses, 1);
}

#[test]
fn send_holds_rw_low_when_bound() {
    let mut out = Vec::new();
    send(BusWidth::Bits8, true, 0x00, Level::Low, &mut out);
    assert_eq!(out[0], PinOp::Write(Line::Rs, Level::Low));
    assert_eq!(out[1], PinOp::Write(Line::Rw, Level::Low));
    assert_eq!(out.len(), 2 + 8 + 6);
}

#[test]
fn write_4_bits_uses_low_nibble_only() {
    let mut out = Vec::new();
    write_4_bits(0xF3, &mut out);
    assert_eq!(out, nibble(0x3));
}

#[test]
fn write_8_bits_appends() {
    let mut out = vec![PinOp::Delay(7)];
    write_8_bits(0xFF, &mut out);
    assert_eq!(out[0], PinOp::Delay(7));
    assert_eq!(out.len(), 1 + 8 + 6);
    assert!(out[1..9].iter().all(|op| matches!(op, PinOp::Write(Line::Data(_), Level::High))));
}

#[test]
fn lower_all_keeps_order() {
    let ts = vec![Transfer::Wait(50000), Transfer::Reset, Transfer::Nibble(0x03), Transfer::Data(0x41)];
    let ops = lower_all(BusWidth::Bits4, true, &ts);
    let mut expected = vec![
        PinOp::Delay(50000),
        PinOp::Write(Line::Rs, Level::Low),
        PinOp::Write(Line::Enable, Level::Low),
        PinOp::Write(Line::Rw, Level::Low),
    ];
    expected.extend(nibble(0x3));
    expected.push(PinOp::Write(Line::Rs, Level::High));
    expected.push(PinOp::Write(Line::Rw, Level::Low));
    expected.extend(nibble(0x4));
    expected.extend(nibble(0x1));
    assert_eq!(ops, expected);
}

#[test]
fn lower_all_empty() {
    assert!(lower_all(BusWidth::Bits8, false, &Vec::new()).is_empty());
}

#[test]
fn level_from_bit() {
    assert_eq!(Level::from(0), Level::Low);
    assert_eq!(Level::from(1), Level::High);
}

use rpi_lcd::demo::{delay_millis, do_main};
use rpi_lcd::{
    BindingError, BusWidth, CharSize, DisplayControl, EntryMode, GpioPin, InitPhase, Level, Line,
    Lines, PinOp, Pins, Transfer, LCD,
};

fn four_bit_pins() -> Pins {
    Pins {
        rs: GpioPin::P26,
        rw: None,
        enable: GpioPin::P19,
        data: [None, None, None, None, Some(GpioPin::P13), Some(GpioPin::P6), Some(GpioPin::P5), Some(GpioPin::P11)],
    }
}

fn eight_bit_pins() -> Pins {
    Pins {
        rs: GpioPin::P7,
        rw: Some(GpioPin::P4),
        enable: GpioPin::P8,
        data: [
            Some(GpioPin::P9),
            Some(GpioPin::P10),
            Some(GpioPin::P11),
            Some(GpioPin::P12),
            Some(GpioPin::P13),
            Some(GpioPin::P14),
            Some(GpioPin::P15),
            Some(GpioPin::P16),
        ],
    }
}

fn began(pins: Pins, cols: u8, lines: u8) -> LCD {
    let mut lcd = LCD::new(pins).unwrap();
    lcd.begin(cols, lines, CharSize::Dots5x8);
    lcd
}

#[test]
fn new_selects_bus_width() {
    let lcd = LCD::new(four_bit_pins()).unwrap();
    assert_eq!(lcd.display_function().mode, BusWidth::Bits4);
    assert_eq!(lcd.display_function().lines, Lines::One);
    assert_eq!(lcd.display_control(), DisplayControl { display: true, cursor: false, blink: false });
    assert_eq!(lcd.entry_mode(), EntryMode { left_to_right: true, autoscroll: false });
    assert_eq!(lcd.num_lines(), 1);
    let lcd = LCD::new(eight_bit_pins()).unwrap();
    assert_eq!(lcd.display_function().mode, BusWidth::Bits8);
}

#[test]
fn new_rejects_missing_high_nibble() {
    let mut pins = four_bit_pins();
    pins.data[6] = None;
    assert_eq!(LCD::new(pins).err(), Some(BindingError::HighNibbleUnbound));
    // The low-nibble wiring of a 4-line bus on D0 to D3 is not a valid layout.
    let pins = Pins {
        rs: GpioPin::P7,
        rw: None,
        enable: GpioPin::P8,
        data: [Some(GpioPin::P9), Some(GpioPin::P10), Some(GpioPin::P11), Some(GpioPin::P12), None, None, None, None],
    };
    assert_eq!(LCD::new(pins).err(), Some(BindingError::HighNibbleUnbound));
}

#[test]
fn new_rejects_partial_low_nibble() {
    let mut pins = eight_bit_pins();
    pins.data[2] = None;
    assert_eq!(LCD::new(pins).err(), Some(BindingError::LowNibblePartial));
}

#[test]
fn begin_four_bit_sequence() {
    let mut lcd = LCD::new(four_bit_pins()).unwrap();
    let ts = lcd.begin(16, 2, CharSize::Dots5x8);
    assert_eq!(
        ts,
        vec![
            Transfer::Wait(50000),
            Transfer::Reset,
            Transfer::Nibble(0x03),
            Transfer::Wait(45000),
            Transfer::Nibble(0x03),
            Transfer::Wait(4500),
            Transfer::Nibble(0x03),
            Transfer::Wait(150),
            Transfer::Nibble(0x02),
            Transfer::Command(0x28),
            Transfer::Command(0x0C),
            Transfer::Command(0x01),
            Transfer::Wait(2000),
            Transfer::Command(0x06),
        ]
    );
    assert_eq!(lcd.row_offsets(), [0x00, 0x40, 16, 0x50]);
    assert_eq!(lcd.num_lines(), 2);
}

#[test]
fn begin_eight_bit_sequence() {
    let mut lcd = LCD::new(eight_bit_pins()).unwrap();
    let ts = lcd.begin(20, 1, CharSize::Dots5x10);
    assert_eq!(
        ts,
        vec![
            Transfer::Wait(50000),
            Transfer::Reset,
            Transfer::Command(0x34),
            Transfer::Wait(4500),
            Transfer::Command(0x34),
            Transfer::Wait(150),
            Transfer::Command(0x34),
            Transfer::Command(0x34),
            Transfer::Command(0x0C),
            Transfer::Command(0x01),
            Transfer::Wait(2000),
            Transfer::Command(0x06),
        ]
    );
    assert_eq!(lcd.display_function().char_size, CharSize::Dots5x10);
}

#[test]
fn begin_forces_5x8_on_two_lines() {
    let mut lcd = LCD::new(eight_bit_pins()).unwrap();
    lcd.begin(16, 2, CharSize::Dots5x10);
    assert_eq!(lcd.display_function().char_size, CharSize::Dots5x8);
    assert_eq!(lcd.display_function().lines, Lines::Two);
}

#[test]
fn begin_resets_display_state() {
    let mut lcd = began(four_bit_pins(), 16, 2);
    lcd.cursor();
    lcd.right_to_left();
    lcd.begin(16, 1, CharSize::Dots5x8);
    assert_eq!(lcd.display_control(), DisplayControl { display: true, cursor: false, blink: false });
    assert_eq!(lcd.entry_mode(), EntryMode { left_to_right: true, autoscroll: false });
    assert_eq!(lcd.display_function().lines, Lines::One);
}

#[test]
fn begin_wraps_row_offsets() {
    let lcd = began(four_bit_pins(), 200, 4);
    assert_eq!(lcd.row_offsets(), [0x00, 0x40, 200, 8]);
}

#[test]
fn init_steps_through_five_phases() {
    let mut lcd = LCD::new(four_bit_pins()).unwrap();
    let mut reference = LCD::new(four_bit_pins()).unwrap();
    let expected = reference.begin(16, 2, CharSize::Dots5x8);
    lcd.begin(16, 2, CharSize::Dots5x8);
    let mut phase = InitPhase::PoweredUnknown;
    let mut seen = vec![phase];
    let mut all = Vec::new();
    while phase != InitPhase::EntryModeSet {
        let (next, mut ts) = lcd.init_step(phase);
        all.append(&mut ts);
        phase = next;
        seen.push(phase);
    }
    assert_eq!(
        seen,
        vec![
            InitPhase::PoweredUnknown,
            InitPhase::ForcedIdle,
            InitPhase::BusWidthNegotiated,
            InitPhase::FunctionConfigured,
            InitPhase::DisplayOnCleared,
            InitPhase::EntryModeSet,
        ]
    );
    assert_eq!(all, expected);
    let waits: Vec<u64> = all
        .iter()
        .filter_map(|t| match t {
            Transfer::Wait(us) => Some(*us),
            _ => None,
        })
        .collect();
    assert_eq!(waits, vec![50000, 45000, 4500, 150, 2000]);
}

#[test]
fn end_to_end_cursor_and_print() {
    let mut lcd = LCD::new(four_bit_pins()).unwrap();
    let mut sent = lcd.begin(16, 2, CharSize::Dots5x8);
    sent.append(&mut lcd.set_cursor(0, 1));
    sent.append(&mut lcd.print("Hi"));
    let n = sent.len();
    assert_eq!(sent[n - 3..], [Transfer::Command(0xC0), Transfer::Data(0x48), Transfer::Data(0x69)]);
    let ops = lcd.transmit(&sent);
    // The last data byte 'i' (0x69) travels as nibbles 0x6 then 0x9 with RS high.
    let tail = &ops[ops.len() - 21..];
    assert_eq!(tail[0], PinOp::Write(Line::Rs, Level::High));
    assert_eq!(tail[1], PinOp::Write(Line::Data(4), Level::Low));
    assert_eq!(tail[2], PinOp::Write(Line::Data(5), Level::High));
    assert_eq!(tail[3], PinOp::Write(Line::Data(6), Level::High));
    assert_eq!(tail[4], PinOp::Write(Line::Data(7), Level::Low));
    assert_eq!(tail[11], PinOp::Write(Line::Data(4), Level::High));
    assert_eq!(tail[14], PinOp::Write(Line::Data(7), Level::High));
    assert_eq!(tail[20], PinOp::Delay(100));
}

#[test]
fn set_cursor_sixteen_column_rows() {
    let lcd = began(four_bit_pins(), 16, 4);
    for c in [0u8, 5, 15] {
        assert_eq!(lcd.set_cursor(c, 0), vec![Transfer::Command(0x80 | c)]);
        assert_eq!(lcd.set_cursor(c, 1), vec![Transfer::Command(0x80 | (0x40 + c))]);
        assert_eq!(lcd.set_cursor(c, 2), vec![Transfer::Command(0x80 | (16 + c))]);
        assert_eq!(lcd.set_cursor(c, 3), vec![Transfer::Command(0x80 | (0x50 + c))]);
    }
}

#[test]
fn set_cursor_clamps_rows() {
    let lcd = began(four_bit_pins(), 16, 2);
    assert_eq!(lcd.set_cursor(3, 5), lcd.set_cursor(3, 1));
    assert_eq!(lcd.set_cursor(3, 5), vec![Transfer::Command(0xC3)]);
    let lcd = began(four_bit_pins(), 20, 4);
    assert_eq!(lcd.set_cursor(0, 9), lcd.set_cursor(0, 3));
    let lcd = began(four_bit_pins(), 16, 1);
    assert_eq!(lcd.set_cursor(2, 1), vec![Transfer::Command(0x82)]);
}

#[test]
fn set_cursor_with_zero_lines_uses_first_row() {
    let lcd = began(four_bit_pins(), 16, 0);
    assert_eq!(lcd.set_cursor(4, 2), vec![Transfer::Command(0x84)]);
}

#[test]
fn create_char_wraps_slot() {
    let lcd = began(four_bit_pins(), 16, 2);
    let bitmap = [0x00, 0x11, 0x11, 0x00, 0x11, 0x0E, 0x00, 0x00];
    assert_eq!(lcd.create_char(9, bitmap), lcd.create_char(1, bitmap));
    let ts = lcd.create_char(1, bitmap);
    assert_eq!(ts.len(), 9);
    assert_eq!(ts[0], Transfer::Command(0x48));
    for i in 0..8 {
        assert_eq!(ts[i + 1], Transfer::Data(bitmap[i]));
    }
    assert_eq!(lcd.create_char(7, bitmap)[0], Transfer::Command(0x78));
    assert_eq!(lcd.create_char(255, bitmap)[0], Transfer::Command(0x78));
}

#[test]
fn display_twice_is_idempotent() {
    let mut lcd = began(four_bit_pins(), 16, 2);
    lcd.blink();
    let first = lcd.display();
    let state = (lcd.display_control(), lcd.entry_mode(), lcd.row_offsets(), lcd.num_lines());
    let second = lcd.display();
    assert_eq!(first, second);
    assert_eq!(first, vec![Transfer::Command(0x0D)]);
    assert_eq!(state, (lcd.display_control(), lcd.entry_mode(), lcd.row_offsets(), lcd.num_lines()));
}

#[test]
fn display_control_toggles() {
    let mut lcd = began(four_bit_pins(), 16, 2);
    assert_eq!(lcd.no_display(), vec![Transfer::Command(0x08)]);
    assert_eq!(lcd.cursor(), vec![Transfer::Command(0x0A)]);
    assert_eq!(lcd.blink(), vec![Transfer::Command(0x0B)]);
    assert_eq!(lcd.display(), vec![Transfer::Command(0x0F)]);
    assert_eq!(lcd.no_cursor(), vec![Transfer::Command(0x0D)]);
    assert_eq!(lcd.no_blink(), vec![Transfer::Command(0x0C)]);
}

#[test]
fn entry_mode_toggles() {
    let mut lcd = began(four_bit_pins(), 16, 2);
    assert_eq!(lcd.right_to_left(), vec![Transfer::Command(0x04)]);
    assert_eq!(lcd.autoscroll(), vec![Transfer::Command(0x05)]);
    assert_eq!(lcd.left_to_right(), vec![Transfer::Command(0x07)]);
    assert_eq!(lcd.no_autscroll(), vec![Transfer::Command(0x06)]);
}

#[test]
fn scrolling_does_not_change_state() {
    let lcd = began(four_bit_pins(), 16, 2);
    assert_eq!(lcd.scroll_display_left(), vec![Transfer::Command(0x18)]);
    assert_eq!(lcd.scroll_display_right(), vec![Transfer::Command(0x1C)]);
    assert_eq!(lcd.display_control(), DisplayControl { display: true, cursor: false, blink: false });
}

#[test]
fn clear_and_home_wait() {
    let lcd = began(four_bit_pins(), 16, 2);
    assert_eq!(lcd.clear(), vec![Transfer::Command(0x01), Transfer::Wait(2000)]);
    assert_eq!(lcd.home(), vec![Transfer::Command(0x02), Transfer::Wait(2000)]);
}

#[test]
fn print_writes_each_byte() {
    let lcd = began(four_bit_pins(), 16, 2);
    assert_eq!(lcd.print(""), vec![]);
    assert_eq!(lcd.print("Hi!"), vec![Transfer::Data(0x48), Transfer::Data(0x69), Transfer::Data(0x21)]);
    assert_eq!(lcd.print("é"), vec![Transfer::Data(0xC3), Transfer::Data(0xA9)]);
    assert_eq!(lcd.write(1), vec![Transfer::Data(1)]);
}

#[test]
fn transmit_eight_bit_with_rw() {
    let lcd = began(eight_bit_pins(), 16, 2);
    let ops = lcd.transmit(&vec![Transfer::Command(0x01), Transfer::Wait(2000)]);
    assert_eq!(ops.len(), 1 + 1 + 8 + 6 + 1);
    assert_eq!(ops[0], PinOp::Write(Line::Rs, Level::Low));
    assert_eq!(ops[1], PinOp::Write(Line::Rw, Level::Low));
    assert_eq!(ops[2], PinOp::Write(Line::Data(0), Level::High));
    assert_eq!(ops[3], PinOp::Write(Line::Data(1), Level::Low));
    assert_eq!(ops[16], PinOp::Delay(2000));
}

#[test]
fn gpio_pin_offsets() {
    assert_eq!(GpioPin::P0.offset(), 0);
    assert_eq!(GpioPin::P13.offset(), 13);
    assert_eq!(GpioPin::P27.offset(), 27);
}

#[test]
fn demo_script_runs() {
    let (lcd, script) = do_main().unwrap();
    assert_eq!(lcd.display_function().mode, BusWidth::Bits4);
    assert_eq!(lcd.display_control(), DisplayControl { display: true, cursor: false, blink: false });
    assert_eq!(script[0], Transfer::Wait(50000));
    assert_eq!(script[script.len() - 2..], [Transfer::Command(0x01), Transfer::Wait(2000)]);
    assert_eq!(delay_millis(250), Transfer::Wait(250_000));
}

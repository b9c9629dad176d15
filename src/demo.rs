//! A demonstration run: greets, scrolls, toggles the display, cursor and blink,
//! writes right to left and shows two custom characters.
use vstd::prelude::*;
use crate::command::{BusWidth, CharSize};
use crate::lcd::{LCD, LcdModel, init_transfers};
use crate::pins::{BindingError, GpioPin, Pins};
use crate::transmit::Transfer;

verus! {

/// A pause of `millis` milliseconds.
pub fn delay_millis(millis: u64) -> (r: Transfer)
    requires
        millis <= 1_000_000,
    ensures
        r == Transfer::Wait((millis * 1000) as u64),
{
    Transfer::Wait(millis * 1000)
}

/// The pins of the demonstration wiring: a 4-bit bus on GPIO 9 to 12.
pub fn demo_pins() -> (r: Pins)
    ensures
        r.layout_ok(),
        r.data@[0].is_none(),
        r.rw.is_none(),
{
    let p = Pins {
        rs: GpioPin::P7,
        rw: None,
        enable: GpioPin::P8,
        data: [None, None, None, None, Some(GpioPin::P9), Some(GpioPin::P10), Some(GpioPin::P11), Some(GpioPin::P12)],
    };
    assert(p.layout_ok());
    p
}

fn push_all(out: &mut Vec<Transfer>, mut more: Vec<Transfer>)
    ensures
        final(out)@ == old(out)@ + more@,
{
    out.append(&mut more);
}

/// The whole demonstration: a controller for [`demo_pins`] and everything it
/// sends, starting with the initialization and ending with a clear.
pub fn do_main() -> (r: Result<(LCD, Vec<Transfer>), BindingError>)
    ensures
        r is Ok,
        r matches Ok((lcd, script)) && ({
            let begun = LcdModel::initial(lcd@.pins).begun(16, 2, CharSize::Dots5x8);
            &&& lcd@ == begun
            &&& lcd@.function.mode == BusWidth::Bits4
            &&& script@.take(init_transfers(begun.function).len() as int) == init_transfers(begun.function)
            &&& script@.last() == Transfer::Wait(2000)
        }),
{
    let pins = demo_pins();
    let mut lcd = match LCD::new(pins) {
        Ok(l) => l,
        Err(e) => return Err(e),
    };
    let mut script = lcd.begin(16, 2, CharSize::Dots5x8);
    let ghost init = script@;
    let mut rest: Vec<Transfer> = Vec::new();

    push_all(&mut rest, lcd.set_cursor(0, 0));
    push_all(&mut rest, lcd.print("Hello, ..."));
    rest.push(delay_millis(500));
    let mut i: u8 = 0;
    while i < 16
        decreases 16 - i,
    {
        push_all(&mut rest, lcd.scroll_display_right());
        rest.push(delay_millis(200));
        i = i + 1;
    }
    push_all(&mut rest, lcd.clear());
    push_all(&mut rest, lcd.set_cursor(6, 1));
    push_all(&mut rest, lcd.print("... world!"));
    rest.push(delay_millis(500));
    let mut j: u8 = 0;
    while j < 16
        decreases 16 - j,
    {
        push_all(&mut rest, lcd.scroll_display_left());
        rest.push(delay_millis(250));
        j = j + 1;
    }

    push_all(&mut rest, lcd.clear());
    push_all(&mut rest, lcd.print("turning off ..."));
    rest.push(delay_millis(2000));
    push_all(&mut rest, lcd.no_display());
    rest.push(delay_millis(2000));
    push_all(&mut rest, lcd.clear());
    push_all(&mut rest, lcd.print("turned on"));
    push_all(&mut rest, lcd.display());
    rest.push(delay_millis(2000));

    push_all(&mut rest, lcd.clear());
    push_all(&mut rest, lcd.cursor());
    rest.push(delay_millis(2000));
    push_all(&mut rest, lcd.print("cursor "));
    rest.push(delay_millis(1000));
    push_all(&mut rest, lcd.no_blink());
    rest.push(delay_millis(1000));
    push_all(&mut rest, lcd.blink());
    rest.push(delay_millis(2000));
    push_all(&mut rest, lcd.no_cursor());
    rest.push(delay_millis(1000));
    push_all(&mut rest, lcd.no_blink());

    push_all(&mut rest, lcd.clear());
    push_all(&mut rest, lcd.set_cursor(15, 0));
    push_all(&mut rest, lcd.right_to_left());
    push_all(&mut rest, lcd.print("right to left"));
    rest.push(delay_millis(3000));

    push_all(&mut rest, lcd.left_to_right());
    push_all(&mut rest, lcd.clear());

    let smiley: [u8; 8] = [
        0b00000u8,
        0b10001u8,
        0b10001u8,
        0b00000u8,
        0b10001u8,
        0b01110u8,
        0b00000u8,
        0b00000u8,
    ];
    let big_dot: [u8; 8] = [
        0b00000u8,
        0b01110u8,
        0b11111u8,
        0b11111u8,
        0b11111u8,
        0b01110u8,
        0b00000u8,
        0b00000u8,
    ];
    push_all(&mut rest, lcd.create_char(0, smiley));
    push_all(&mut rest, lcd.create_char(1, big_dot));
    push_all(&mut rest, lcd.clear());
    push_all(&mut rest, lcd.write(0));
    push_all(&mut rest, lcd.set_cursor(3, 1));
    push_all(&mut rest, lcd.write(0));
    push_all(&mut rest, lcd.set_cursor(5, 0));
    push_all(&mut rest, lcd.write(1));
    rest.push(delay_millis(30000));

    push_all(&mut rest, lcd.clear());
    push_all(&mut rest, lcd.print("The End"));
    rest.push(delay_millis(2000));
    push_all(&mut rest, lcd.clear());
    push_all(&mut script, rest);
    assert(script@.take(init.len() as int) =~= init);
    Ok((lcd, script))
}

} // verus!

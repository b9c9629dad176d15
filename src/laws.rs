//! Properties that relate several operations of the controller.
use vstd::prelude::*;
use crate::command::{DisplayControl, display_control_byte};
use crate::lcd::{LcdModel, create_char_transfers, row_address, row_table};

verus! {

/// With a 16-column row table, column `c` of rows 0, 1 and 2 lies at DDRAM
/// addresses `c`, `0x40 + c` and `16 + c`, while no address wraps past 255.
pub proof fn lemma_row_addresses_16_columns(c: u8)
    requires
        c <= 0xBF,
    ensures
        row_address(row_table(16), 0, c) == c,
        row_address(row_table(16), 1, c) == 0x40 + c,
        row_address(row_table(16), 2, c) == 16 + c,
        row_address(row_table(16), 3, c) == (0x50 + c) % 256,
{
}

/// On a two-line display, asking `set_cursor` for row 5 addresses the same
/// place as asking for row 1.
pub proof fn lemma_set_cursor_clamps_rows(m: LcdModel, col: u8)
    requires
        m.num_lines == 2,
    ensures
        m.cursor_byte(col, 5) == m.cursor_byte(col, 1),
{
}

/// Custom-character slots wrap at 8: slot `location` and slot `location - 8`
/// send the same transfers.
pub proof fn lemma_create_char_slot_wraps(location: u8, charmap: Seq<u8>)
    requires
        location >= 8,
    ensures
        create_char_transfers(location, charmap) == create_char_transfers(
            (location - 8) as u8,
            charmap,
        ),
{
    let lower = (location - 8) as u8;
    assert(location >= 8 ==> location & 7u8 == ((location - 8) as u8) & 7u8) by (bit_vector);
    assert(location & 7u8 == lower & 7u8);
}

/// Turning the display on twice sends the same display-control byte twice and
/// leaves the state as the first call left it.
pub proof fn lemma_display_idempotent(m: LcdModel)
    ensures
        ({
            let once = m.with_control(DisplayControl { display: true, ..m.control });
            let twice = once.with_control(DisplayControl { display: true, ..once.control });
            &&& twice == once
            &&& display_control_byte(twice.control) == display_control_byte(once.control)
        }),
{
}

} // verus!

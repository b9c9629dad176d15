//! The HD44780 instruction set: configuration values and the bytes they encode to.
use vstd::prelude::*;

verus! {

/// Data-bus width of the controller interface.
#[derive(Debug, Clone, Copy, PartialEq, Eq, Structural)]
pub enum BusWidth {
    Bits4,
    Bits8,
}

/// Number of display lines the controller is configured for.
#[derive(Debug, Clone, Copy, PartialEq, Eq, Structural)]
pub enum Lines {
    One,
    Two,
}

/// Size of the LCD character matrix.
#[derive(Debug, Clone, Copy, PartialEq, Eq, Structural)]
pub enum CharSize {
    Dots5x8,
    Dots5x10,
}

/// What a cursor-or-display shift moves.
#[derive(Debug, Clone, Copy, PartialEq, Eq, Structural)]
pub enum MoveControl {
    Display,
    Cursor,
}

/// The direction of a cursor-or-display shift.
#[derive(Debug, Clone, Copy, PartialEq, Eq, Structural)]
pub enum MoveDirection {
    Right,
    Left,
}

/// Display on/off, cursor on/off and cursor blink on/off.
#[derive(Debug, Clone, Copy, PartialEq, Eq, Structural)]
pub struct DisplayControl {
    pub display: bool,
    pub cursor: bool,
    pub blink: bool,
}

/// Text direction and automatic display shift.
#[derive(Debug, Clone, Copy, PartialEq, Eq, Structural)]
pub struct EntryMode {
    pub left_to_right: bool,
    pub autoscroll: bool,
}

/// Bus width, line count and character matrix, as sent by a function-set instruction.
#[derive(Debug, Clone, Copy, PartialEq, Eq, Structural)]
pub struct DisplayFunction {
    pub mode: BusWidth,
    pub lines: Lines,
    pub char_size: CharSize,
}

pub open spec fn move_control_bit(m: MoveControl) -> u8 {
    match m {
        MoveControl::Display => 0x08,
        MoveControl::Cursor => 0x00,
    }
}

pub open spec fn move_direction_bit(d: MoveDirection) -> u8 {
    match d {
        MoveDirection::Right => 0x04,
        MoveDirection::Left => 0x00,
    }
}

pub open spec fn bus_width_bit(m: BusWidth) -> u8 {
    match m {
        BusWidth::Bits4 => 0x00,
        BusWidth::Bits8 => 0x10,
    }
}

pub open spec fn lines_bit(l: Lines) -> u8 {
    match l {
        Lines::One => 0x00,
        Lines::Two => 0x08,
    }
}

pub open spec fn char_size_bit(c: CharSize) -> u8 {
    match c {
        CharSize::Dots5x8 => 0x00,
        CharSize::Dots5x10 => 0x04,
    }
}

pub open spec fn flag(on: bool, bit: u8) -> u8 {
    if on {
        bit
    } else {
        0x00
    }
}

/// The entry-mode-set instruction for `em`.
pub open spec fn entry_mode_byte(em: EntryMode) -> u8 {
    0x04u8 | flag(em.left_to_right, 0x02) | flag(em.autoscroll, 0x01)
}

/// The display-control instruction for `dc`.
pub open spec fn display_control_byte(dc: DisplayControl) -> u8 {
    0x08u8 | flag(dc.display, 0x04) | flag(dc.cursor, 0x02) | flag(dc.blink, 0x01)
}

/// The cursor-or-display-shift instruction.
pub open spec fn cursor_shift_byte(what: MoveControl, direction: MoveDirection) -> u8 {
    0x10u8 | move_control_bit(what) | move_direction_bit(direction)
}

/// The function-set instruction for `df`.
pub open spec fn function_set_byte(df: DisplayFunction) -> u8 {
    0x20u8 | bus_width_bit(df.mode) | lines_bit(df.lines) | char_size_bit(df.char_size)
}

impl MoveControl {
    pub fn as_u8(&self) -> (r: u8)
        ensures
            r == move_control_bit(*self),
    {
        match self {
            MoveControl::Display => 0x08,
            MoveControl::Cursor => 0x00,
        }
    }
}

impl MoveDirection {
    pub fn as_u8(&self) -> (r: u8)
        ensures
            r == move_direction_bit(*self),
    {
        match self {
            MoveDirection::Right => 0x04,
            MoveDirection::Left => 0x00,
        }
    }
}

impl BusWidth {
    pub fn as_u8(&self) -> (r: u8)
        ensures
            r == bus_width_bit(*self),
    {
        match self {
            BusWidth::Bits4 => 0x00,
            BusWidth::Bits8 => 0x10,
        }
    }
}

impl Lines {
    pub fn as_u8(&self) -> (r: u8)
        ensures
            r == lines_bit(*self),
    {
        match self {
            Lines::One => 0x00,
            Lines::Two => 0x08,
        }
    }
}

impl CharSize {
    pub fn as_u8(&self) -> (r: u8)
        ensures
            r == char_size_bit(*self),
    {
        match self {
            CharSize::Dots5x8 => 0x00,
            CharSize::Dots5x10 => 0x04,
        }
    }
}

fn flag_bits(on: bool, bit: u8) -> (r: u8)
    ensures
        r == flag(on, bit),
{
    if on {
        bit
    } else {
        0x00
    }
}

/// Clear the display and return the cursor home.
pub fn clear_display() -> (r: u8)
    ensures
        r == 0x01,
{
    0x01
}

/// Return the cursor (and a shifted display) home.
pub fn return_home() -> (r: u8)
    ensures
        r == 0x02,
{
    0x02
}

/// Encodes the entry mode: `0x04`, plus `0x02` for left-to-right, plus `0x01` for autoscroll.
pub fn entry_mode_set(em: &EntryMode) -> (r: u8)
    ensures
        r == entry_mode_byte(*em),
        r == 0x04u8 | (if em.left_to_right { 0x02u8 } else { 0x00u8 }) | (if em.autoscroll {
            0x01u8
        } else {
            0x00u8
        }),
{
    0x04u8 | flag_bits(em.left_to_right, 0x02) | flag_bits(em.autoscroll, 0x01)
}

/// Encodes the display control: `0x08`, plus `0x04` for display on, `0x02` for
/// cursor on and `0x01` for blink on.
pub fn display_control(dc: &DisplayControl) -> (r: u8)
    ensures
        r == display_control_byte(*dc),
        r == 0x08u8 | (if dc.display { 0x04u8 } else { 0x00u8 }) | (if dc.cursor {
            0x02u8
        } else {
            0x00u8
        }) | (if dc.blink { 0x01u8 } else { 0x00u8 }),
{
    0x08u8 | flag_bits(dc.display, 0x04) | flag_bits(dc.cursor, 0x02) | flag_bits(dc.blink, 0x01)
}

/// Encodes a cursor-or-display shift.
pub fn cursor_shift(what: &MoveControl, direction: &MoveDirection) -> (r: u8)
    ensures
        r == cursor_shift_byte(*what, *direction),
{
    0x10u8 | what.as_u8() | direction.as_u8()
}

/// Encodes a function set.
pub fn function_set(df: &DisplayFunction) -> (r: u8)
    ensures
        r == function_set_byte(*df),
{
    0x20u8 | df.mode.as_u8() | df.lines.as_u8() | df.char_size.as_u8()
}

/// Sets the DDRAM address counter.
pub fn set_ddram_address(address: u8) -> (r: u8)
    ensures
        r == 0x80u8 | address,
{
    0x80u8 | address
}

/// Sets the CGRAM address counter.
pub fn set_cgram_address(address: u8) -> (r: u8)
    ensures
        r == 0x40u8 | address,
{
    0x40u8 | address
}

} // verus!

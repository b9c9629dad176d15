//! The display controller: configuration state, the initialization sequencer
//! and the terminal-like operations.
//!
//! Every operation updates the controller's state and returns the byte-level
//! [`Transfer`]s it sends; [`LCD::transmit`] turns them into line writes.
use vstd::prelude::*;
use vstd::string::StringSliceAdditionalSpecFns;
use crate::command::{
    BusWidth, CharSize, DisplayControl, DisplayFunction, EntryMode, Lines, MoveControl,
    MoveDirection, cursor_shift_byte, display_control_byte, entry_mode_byte, function_set_byte,
};
use crate::command;
use crate::pins::{BindingError, Pins};
use crate::transmit::{PinOp, Transfer, lower, lower_all};

verus! {

/// Settle time after power-on before any bus activity, in microseconds.
pub const POWER_ON_DELAY_US: u64 = 50000;

/// Execution time allowed for clear-display and return-home, in microseconds.
pub const CLEAR_DELAY_US: u64 = 2000;

/// The controller state, as the contracts speak of it.
pub struct LcdModel {
    pub pins: Pins,
    pub function: DisplayFunction,
    pub control: DisplayControl,
    pub entry: EntryMode,
    pub row_offsets: Seq<u8>,
    pub num_lines: u8,
}

/// Display on, cursor and blink off.
pub open spec fn default_control() -> DisplayControl {
    DisplayControl { display: true, cursor: false, blink: false }
}

/// Left-to-right text, no automatic shift.
pub open spec fn default_entry() -> EntryMode {
    EntryMode { left_to_right: true, autoscroll: false }
}

/// The DDRAM base address of each row for a display `cols` characters wide.
pub open spec fn row_table(cols: u8) -> Seq<u8> {
    seq![0x00u8, 0x40u8, cols, ((0x40 + cols) % 256) as u8]
}

/// The row `set_cursor` uses: at most 3, and at most the last configured line.
pub open spec fn clamp_row(row: u8, num_lines: u8) -> u8 {
    let last: u8 = if num_lines == 0 { 0 } else { (num_lines - 1) as u8 };
    if row <= 3 && row <= last {
        row
    } else if 3 <= last {
        3
    } else {
        last
    }
}

/// The DDRAM address of column `col` on row `row`, wrapping at 256.
pub open spec fn row_address(offsets: Seq<u8>, row: u8, col: u8) -> u8 {
    ((offsets[row as int] + col) % 256) as u8
}

/// The set-CGRAM-address instruction for custom character `location`, taken modulo 8.
pub open spec fn cgram_byte(location: u8) -> u8 {
    0x40u8 | ((location & 7u8) << 3u8)
}

/// Defining custom character `location` with the 8 rows of `charmap`.
pub open spec fn create_char_transfers(location: u8, charmap: Seq<u8>) -> Seq<Transfer> {
    seq![Transfer::Command(cgram_byte(location))] + data_transfers(charmap)
}

/// Each byte of `bytes` as a data transfer, in order.
pub open spec fn data_transfers(bytes: Seq<u8>) -> Seq<Transfer> {
    bytes.map_values(|b: u8| Transfer::Data(b))
}

/// The phases of the power-on initialization.
#[derive(Debug, Clone, Copy, PartialEq, Eq, Structural)]
pub enum InitPhase {
    PoweredUnknown,
    ForcedIdle,
    BusWidthNegotiated,
    FunctionConfigured,
    DisplayOnCleared,
    /// Terminal: the controller is ready.
    EntryModeSet,
}

pub open spec fn next_phase(p: InitPhase) -> InitPhase {
    match p {
        InitPhase::PoweredUnknown => InitPhase::ForcedIdle,
        InitPhase::ForcedIdle => InitPhase::BusWidthNegotiated,
        InitPhase::BusWidthNegotiated => InitPhase::FunctionConfigured,
        InitPhase::FunctionConfigured => InitPhase::DisplayOnCleared,
        InitPhase::DisplayOnCleared => InitPhase::EntryModeSet,
        InitPhase::EntryModeSet => InitPhase::EntryModeSet,
    }
}

/// What leaving phase `p` sends, for the function set `f`.
pub open spec fn phase_transfers(f: DisplayFunction, p: InitPhase) -> Seq<Transfer> {
    let fs = function_set_byte(f);
    match p {
        InitPhase::PoweredUnknown => seq![Transfer::Wait(50000), Transfer::Reset],
        InitPhase::ForcedIdle => match f.mode {
            BusWidth::Bits4 => seq![
                Transfer::Nibble(0x03),
                Transfer::Wait(45000),
                Transfer::Nibble(0x03),
                Transfer::Wait(4500),
                Transfer::Nibble(0x03),
                Transfer::Wait(150),
                Transfer::Nibble(0x02),
            ],
            BusWidth::Bits8 => seq![
                Transfer::Command(fs),
                Transfer::Wait(4500),
                Transfer::Command(fs),
                Transfer::Wait(150),
                Transfer::Command(fs),
            ],
        },
        InitPhase::BusWidthNegotiated => seq![Transfer::Command(fs)],
        InitPhase::FunctionConfigured => seq![
            Transfer::Command(display_control_byte(default_control())),
            Transfer::Command(0x01),
            Transfer::Wait(2000),
        ],
        InitPhase::DisplayOnCleared => seq![Transfer::Command(entry_mode_byte(default_entry()))],
        InitPhase::EntryModeSet => seq![],
    }
}

/// Everything `begin` sends once the function set is `f`: the five phases in order.
pub open spec fn init_transfers(f: DisplayFunction) -> Seq<Transfer> {
    phase_transfers(f, InitPhase::PoweredUnknown) + phase_transfers(f, InitPhase::ForcedIdle)
        + phase_transfers(f, InitPhase::BusWidthNegotiated) + phase_transfers(
        f,
        InitPhase::FunctionConfigured,
    ) + phase_transfers(f, InitPhase::DisplayOnCleared)
}

impl LcdModel {
    /// The invariant of every controller.
    pub open spec fn wf(&self) -> bool {
        &&& self.pins.layout_ok()
        &&& self.function.mode == self.pins.width_spec()
        &&& self.function.char_size == CharSize::Dots5x10 ==> self.function.lines == Lines::One
        &&& self.row_offsets.len() == 4
    }

    /// The state right after construction.
    pub open spec fn initial(pins: Pins) -> LcdModel {
        LcdModel {
            pins,
            function: DisplayFunction {
                mode: pins.width_spec(),
                lines: Lines::One,
                char_size: CharSize::Dots5x8,
            },
            control: default_control(),
            entry: default_entry(),
            row_offsets: seq![0u8, 0u8, 0u8, 0u8],
            num_lines: 1,
        }
    }

    /// Whether an RW line is bound.
    pub open spec fn has_rw(&self) -> bool {
        self.pins.rw.is_some()
    }

    /// The function set `begin(cols, lines, char_size)` configures.
    pub open spec fn configured(&self, lines: u8, char_size: CharSize) -> DisplayFunction {
        DisplayFunction {
            mode: self.function.mode,
            lines: if lines > 1 { Lines::Two } else { Lines::One },
            char_size: if char_size == CharSize::Dots5x10 && lines == 1 {
                CharSize::Dots5x10
            } else {
                CharSize::Dots5x8
            },
        }
    }

    /// The state after `begin(cols, lines, char_size)`.
    pub open spec fn begun(&self, cols: u8, lines: u8, char_size: CharSize) -> LcdModel {
        LcdModel {
            function: self.configured(lines, char_size),
            control: default_control(),
            entry: default_entry(),
            row_offsets: row_table(cols),
            num_lines: lines,
            ..*self
        }
    }

    /// The state after leaving phase `p`.
    pub open spec fn after_phase(&self, p: InitPhase) -> LcdModel {
        match p {
            InitPhase::FunctionConfigured => LcdModel { control: default_control(), ..*self },
            InitPhase::DisplayOnCleared => LcdModel { entry: default_entry(), ..*self },
            _ => *self,
        }
    }

    /// The state with display control `dc`.
    pub open spec fn with_control(&self, dc: DisplayControl) -> LcdModel {
        LcdModel { control: dc, ..*self }
    }

    /// The state with entry mode `em`.
    pub open spec fn with_entry(&self, em: EntryMode) -> LcdModel {
        LcdModel { entry: em, ..*self }
    }

    /// The instruction `set_cursor(col, row)` sends.
    pub open spec fn cursor_byte(&self, col: u8, row: u8) -> u8 {
        0x80u8 | row_address(self.row_offsets, clamp_row(row, self.num_lines), col)
    }
}

/// An HD44780 display controller.
pub struct LCD {
    pins: Pins,
    display_function: DisplayFunction,
    display_control: DisplayControl,
    display_mode: EntryMode,
    row_offsets: [u8; 4],
    num_lines: u8,
}

impl View for LCD {
    type V = LcdModel;

    closed spec fn view(&self) -> LcdModel {
        LcdModel {
            pins: self.pins,
            function: self.display_function,
            control: self.display_control,
            entry: self.display_mode,
            row_offsets: self.row_offsets@,
            num_lines: self.num_lines,
        }
    }
}

impl LCD {
    #[verifier::type_invariant]
    closed spec fn inv(&self) -> bool {
        self@.wf()
    }

    /// A controller for the display wired to `pins`, in 8-bit mode when D0 to D3
    /// are connected and in 4-bit mode when they are not.
    pub fn new(pins: Pins) -> (r: Result<LCD, BindingError>)
        ensures
            r is Ok <==> pins.layout_ok(),
            r is Ok ==> r->Ok_0@ == LcdModel::initial(pins),
            r is Err ==> (r->Err_0 == BindingError::HighNibbleUnbound <==> !crate::pins::all_bound(
                pins.data@,
                4,
                8,
            )),
    {
        match pins.check_layout() {
            Err(e) => Err(e),
            Ok(()) => {
                let display_function = DisplayFunction {
                    mode: pins.width(),
                    lines: Lines::One,
                    char_size: CharSize::Dots5x8,
                };
                let display_control = DisplayControl { display: true, cursor: false, blink: false };
                let display_mode = EntryMode { left_to_right: true, autoscroll: false };
                let lcd = LCD {
                    pins,
                    display_function,
                    display_control,
                    display_mode,
                    row_offsets: [0x00; 4],
                    num_lines: 1,
                };
                assert(lcd@.row_offsets =~= seq![0u8, 0u8, 0u8, 0u8]);
                Ok(lcd)
            },
        }
    }

    /// Initializes the controller for a display `cols` characters wide with
    /// `lines` lines and the character matrix `char_size`, which is honoured
    /// only for a single-line display. Must precede every other operation;
    /// running it again resets the display state to its defaults.
    pub fn begin(&mut self, cols: u8, lines: u8, char_size: CharSize) -> (r: Vec<Transfer>)
        ensures
            final(self)@ == old(self)@.begun(cols, lines, char_size),
            r@ == init_transfers(final(self)@.function),
    {
        proof {
            use_type_invariant(&*self);
        }
        let line_mode = if lines > 1 {
            Lines::Two
        } else {
            Lines::One
        };
        let matrix = if char_size == CharSize::Dots5x10 && lines == 1 {
            CharSize::Dots5x10
        } else {
            CharSize::Dots5x8
        };
        self.display_function = DisplayFunction {
            mode: self.display_function.mode,
            lines: line_mode,
            char_size: matrix,
        };
        self.num_lines = lines;
        self.set_row_offsets(0x00, 0x40, cols, 0x40u8.wrapping_add(cols));
        let (p1, mut out) = self.init_step(InitPhase::PoweredUnknown);
        let (p2, mut t2) = self.init_step(p1);
        out.append(&mut t2);
        let (p3, mut t3) = self.init_step(p2);
        out.append(&mut t3);
        let (p4, mut t4) = self.init_step(p3);
        out.append(&mut t4);
        let (_p5, mut t5) = self.init_step(p4);
        out.append(&mut t5);
        assert(self@ =~= old(self)@.begun(cols, lines, char_size));
        out
    }

    /// Leaves initialization phase `phase`: returns the next phase and what
    /// this step sends.
    pub fn init_step(&mut self, phase: InitPhase) -> (r: (InitPhase, Vec<Transfer>))
        ensures
            r.0 == next_phase(phase),
            r.1@ == phase_transfers(old(self)@.function, phase),
            final(self)@ == old(self)@.after_phase(phase),
    {
        proof {
            use_type_invariant(&*self);
        }
        let fs = command::function_set(&self.display_function);
        let mut out: Vec<Transfer> = Vec::new();
        match phase {
            InitPhase::PoweredUnknown => {
                out.push(Transfer::Wait(POWER_ON_DELAY_US));
                out.push(Transfer::Reset);
                assert(out@ =~= phase_transfers(old(self)@.function, phase));
                (InitPhase::ForcedIdle, out)
            },
            InitPhase::ForcedIdle => {
                match self.display_function.mode {
                    BusWidth::Bits4 => {
                        out.push(Transfer::Nibble(0x03));
                        out.push(Transfer::Wait(45000));
                        out.push(Transfer::Nibble(0x03));
                        out.push(Transfer::Wait(4500));
                        out.push(Transfer::Nibble(0x03));
                        out.push(Transfer::Wait(150));
                        out.push(Transfer::Nibble(0x02));
                    },
                    BusWidth::Bits8 => {
                        out.push(Transfer::Command(fs));
                        out.push(Transfer::Wait(4500));
                        out.push(Transfer::Command(fs));
                        out.push(Transfer::Wait(150));
                        out.push(Transfer::Command(fs));
                    },
                }
                assert(out@ =~= phase_transfers(old(self)@.function, phase));
                (InitPhase::BusWidthNegotiated, out)
            },
            InitPhase::BusWidthNegotiated => {
                out.push(Transfer::Command(fs));
                assert(out@ =~= phase_transfers(old(self)@.function, phase));
                (InitPhase::FunctionConfigured, out)
            },
            InitPhase::FunctionConfigured => {
                self.display_control = DisplayControl { display: true, cursor: false, blink: false };
                let mut on = self.display();
                out.append(&mut on);
                let mut cleared = self.clear();
                out.append(&mut cleared);
                assert(out@ =~= phase_transfers(old(self)@.function, phase));
                assert(self@ =~= old(self)@.after_phase(phase));
                (InitPhase::DisplayOnCleared, out)
            },
            InitPhase::DisplayOnCleared => {
                self.display_mode = EntryMode { left_to_right: true, autoscroll: false };
                out.push(Transfer::Command(command::entry_mode_set(&self.display_mode)));
                assert(out@ =~= phase_transfers(old(self)@.function, phase));
                assert(self@ =~= old(self)@.after_phase(phase));
                (InitPhase::EntryModeSet, out)
            },
            InitPhase::EntryModeSet => {
                assert(out@ =~= phase_transfers(old(self)@.function, phase));
                (InitPhase::EntryModeSet, out)
            },
        }
    }

    fn set_row_offsets(&mut self, row1: u8, row2: u8, row3: u8, row4: u8)
        ensures
            final(self)@ == (LcdModel { row_offsets: seq![row1, row2, row3, row4], ..old(self)@ }),
    {
        proof {
            use_type_invariant(&*self);
        }
        self.row_offsets = [row1, row2, row3, row4];
        assert(self.row_offsets@ =~= seq![row1, row2, row3, row4]);
    }

    /// Positions the cursor at column `col` of row `row`. The row is clamped to
    /// the last configured line (and to row 3); the column is not checked.
    pub fn set_cursor(&self, col: u8, row: u8) -> (r: Vec<Transfer>)
        ensures
            r@ == seq![Transfer::Command(self@.cursor_byte(col, row))],
    {
        proof {
            use_type_invariant(self);
        }
        let mut row = row;
        if row >= 4 {
            row = 3;
        }
        if row >= self.num_lines {
            row = if self.num_lines == 0 {
                0
            } else {
                self.num_lines - 1
            };
        }
        let address = col.wrapping_add(self.row_offsets[row as usize]);
        let mut out: Vec<Transfer> = Vec::new();
        out.push(Transfer::Command(command::set_ddram_address(address)));
        out
    }

    /// Clears the display and returns the cursor to the upper-left corner.
    pub fn clear(&self) -> (r: Vec<Transfer>)
        ensures
            r@ == seq![Transfer::Command(0x01), Transfer::Wait(2000)],
    {
        let mut out: Vec<Transfer> = Vec::new();
        out.push(Transfer::Command(command::clear_display()));
        out.push(Transfer::Wait(CLEAR_DELAY_US));
        out
    }

    /// Returns the cursor to the upper-left corner.
    pub fn home(&self) -> (r: Vec<Transfer>)
        ensures
            r@ == seq![Transfer::Command(0x02), Transfer::Wait(2000)],
    {
        let mut out: Vec<Transfer> = Vec::new();
        out.push(Transfer::Command(command::return_home()));
        out.push(Transfer::Wait(CLEAR_DELAY_US));
        out
    }

    fn send_control(&self) -> (r: Vec<Transfer>)
        ensures
            r@ == seq![Transfer::Command(display_control_byte(self@.control))],
    {
        let mut out: Vec<Transfer> = Vec::new();
        out.push(Transfer::Command(command::display_control(&self.display_control)));
        out
    }

    /// Turns the display off, keeping the text on it.
    pub fn no_display(&mut self) -> (r: Vec<Transfer>)
        ensures
            final(self)@ == old(self)@.with_control(DisplayControl { display: false, ..old(self)@.control }),
            r@ == seq![Transfer::Command(display_control_byte(final(self)@.control))],
    {
        proof {
            use_type_invariant(&*self);
        }
        self.display_control.display = false;
        self.send_control()
    }

    /// Turns the display on.
    pub fn display(&mut self) -> (r: Vec<Transfer>)
        ensures
            final(self)@ == old(self)@.with_control(DisplayControl { display: true, ..old(self)@.control }),
            r@ == seq![Transfer::Command(display_control_byte(final(self)@.control))],
    {
        proof {
            use_type_invariant(&*self);
        }
        self.display_control.display = true;
        self.send_control()
    }

    /// Hides the cursor.
    pub fn no_cursor(&mut self) -> (r: Vec<Transfer>)
        ensures
            final(self)@ == old(self)@.with_control(DisplayControl { cursor: false, ..old(self)@.control }),
            r@ == seq![Transfer::Command(display_control_byte(final(self)@.control))],
    {
        proof {
            use_type_invariant(&*self);
        }
        self.display_control.cursor = false;
        self.send_control()
    }

    /// Shows the cursor, an underscore where the next character goes.
    pub fn cursor(&mut self) -> (r: Vec<Transfer>)
        ensures
            final(self)@ == old(self)@.with_control(DisplayControl { cursor: true, ..old(self)@.control }),
            r@ == seq![Transfer::Command(display_control_byte(final(self)@.control))],
    {
        proof {
            use_type_invariant(&*self);
        }
        self.display_control.cursor = true;
        self.send_control()
    }

    /// Stops the cursor blinking.
    pub fn no_blink(&mut self) -> (r: Vec<Transfer>)
        ensures
            final(self)@ == old(self)@.with_control(DisplayControl { blink: false, ..old(self)@.control }),
            r@ == seq![Transfer::Command(display_control_byte(final(self)@.control))],
    {
        proof {
            use_type_invariant(&*self);
        }
        self.display_control.blink = false;
        self.send_control()
    }

    /// Makes the cursor blink.
    pub fn blink(&mut self) -> (r: Vec<Transfer>)
        ensures
            final(self)@ == old(self)@.with_control(DisplayControl { blink: true, ..old(self)@.control }),
            r@ == seq![Transfer::Command(display_control_byte(final(self)@.control))],
    {
        proof {
            use_type_invariant(&*self);
        }
        self.display_control.blink = true;
        self.send_control()
    }
    /// Writes the bytes of `msg` as data, in order, with no wrapping.
    pub fn print(&self, msg: &str) -> (r: Vec<Transfer>)
        ensures
            r@ == data_transfers(msg.spec_bytes()),
    {
        let bytes = msg.as_bytes();
        let mut out: Vec<Transfer> = Vec::new();
        let mut i: usize = 0;
        while i < bytes.len()
            invariant
                i <= bytes@.len(),
                bytes@ == msg.spec_bytes(),
                out@ == data_transfers(bytes@.take(i as int)),
            decreases bytes@.len() - i,
        {
            out.push(Transfer::Data(bytes[i]));
            i = i + 1;
            assert(out@ =~= data_transfers(bytes@.take(i as int)));
        }
        assert(bytes@.take(i as int) =~= bytes@);
        out
    }

    /// Scrolls the text and cursor one position to the left.
    pub fn scroll_display_left(&self) -> (r: Vec<Transfer>)
        ensures
            r@ == seq![Transfer::Command(cursor_shift_byte(MoveControl::Display, MoveDirection::Left))],
    {
        let mut out: Vec<Transfer> = Vec::new();
        out.push(Transfer::Command(command::cursor_shift(&MoveControl::Display, &MoveDirection::Left)));
        out
    }

    /// Scrolls the text and cursor one position to the right.
    pub fn scroll_display_right(&self) -> (r: Vec<Transfer>)
        ensures
            r@ == seq![Transfer::Command(cursor_shift_byte(MoveControl::Display, MoveDirection::Right))],
    {
        let mut out: Vec<Transfer> = Vec::new();
        out.push(Transfer::Command(command::cursor_shift(&MoveControl::Display, &MoveDirection::Right)));
        out
    }

    fn send_entry_mode(&self) -> (r: Vec<Transfer>)
        ensures
            r@ == seq![Transfer::Command(entry_mode_byte(self@.entry))],
    {
        let mut out: Vec<Transfer> = Vec::new();
        out.push(Transfer::Command(command::entry_mode_set(&self.display_mode)));
        out
    }

    /// Text written from now on flows left to right.
    pub fn left_to_right(&mut self) -> (r: Vec<Transfer>)
        ensures
            final(self)@ == old(self)@.with_entry(EntryMode { left_to_right: true, ..old(self)@.entry }),
            r@ == seq![Transfer::Command(entry_mode_byte(final(self)@.entry))],
    {
        proof {
            use_type_invariant(&*self);
        }
        self.display_mode.left_to_right = true;
        self.send_entry_mode()
    }

    /// Text written from now on flows right to left.
    pub fn right_to_left(&mut self) -> (r: Vec<Transfer>)
        ensures
            final(self)@ == old(self)@.with_entry(EntryMode { left_to_right: false, ..old(self)@.entry }),
            r@ == seq![Transfer::Command(entry_mode_byte(final(self)@.entry))],
    {
        proof {
            use_type_invariant(&*self);
        }
        self.display_mode.left_to_right = false;
        self.send_entry_mode()
    }

    /// Each character written from now on shifts the display, so that new
    /// characters appear at the same position.
    pub fn autoscroll(&mut self) -> (r: Vec<Transfer>)
        ensures
            final(self)@ == old(self)@.with_entry(EntryMode { autoscroll: true, ..old(self)@.entry }),
            r@ == seq![Transfer::Command(entry_mode_byte(final(self)@.entry))],
    {
        proof {
            use_type_invariant(&*self);
        }
        self.display_mode.autoscroll = true;
        self.send_entry_mode()
    }

    /// Turns automatic scrolling off.
    pub fn no_autscroll(&mut self) -> (r: Vec<Transfer>)
        ensures
            final(self)@ == old(self)@.with_entry(EntryMode { autoscroll: false, ..old(self)@.entry }),
            r@ == seq![Transfer::Command(entry_mode_byte(final(self)@.entry))],
    {
        proof {
            use_type_invariant(&*self);
        }
        self.display_mode.autoscroll = false;
        self.send_entry_mode()
    }

    /// Defines custom character `location` (taken modulo 8) from the eight
    /// rows of `charmap`; the low five bits of each row are its pixels.
    /// Writing `location` then shows the glyph.
    pub fn create_char(&self, location: u8, charmap: [u8; 8]) -> (r: Vec<Transfer>)
        ensures
            r@ == create_char_transfers(location, charmap@),
    {
        let slot = location & 0x7;
        let mut out: Vec<Transfer> = Vec::new();
        out.push(Transfer::Command(command::set_cgram_address(slot << 3)));
        let mut i: usize = 0;
        while i < 8
            invariant
                i <= 8,
                charmap@.len() == 8,
                out@ == seq![Transfer::Command(cgram_byte(location))] + data_transfers(
                    charmap@.take(i as int),
                ),
            decreases 8 - i,
        {
            out.push(Transfer::Data(charmap[i]));
            i = i + 1;
            assert(out@ =~= seq![Transfer::Command(cgram_byte(location))] + data_transfers(
                charmap@.take(i as int),
            ));
        }
        assert(charmap@.take(8) =~= charmap@);
        out
    }

    /// Writes one data byte: a character code, or 0 to 7 for a custom character.
    pub fn write(&self, value: u8) -> (r: Vec<Transfer>)
        ensures
            r@ == seq![Transfer::Data(value)],
    {
        let mut out: Vec<Transfer> = Vec::new();
        out.push(Transfer::Data(value));
        out
    }

    /// The line writes and waits that carry `transfers` on this controller's bus.
    pub fn transmit(&self, transfers: &Vec<Transfer>) -> (r: Vec<PinOp>)
        ensures
            r@ == lower(self@.function.mode, self@.has_rw(), transfers@),
    {
        lower_all(self.display_function.mode, self.pins.rw.is_some(), transfers)
    }

    /// The pins this controller is wired to.
    pub fn pins(&self) -> (r: Pins)
        ensures
            r == self@.pins,
    {
        self.pins
    }

    /// The function set: bus width, line count and character matrix.
    pub fn display_function(&self) -> (r: DisplayFunction)
        ensures
            r == self@.function,
    {
        self.display_function
    }

    /// Display, cursor and blink state.
    pub fn display_control(&self) -> (r: DisplayControl)
        ensures
            r == self@.control,
    {
        self.display_control
    }

    /// Text direction and automatic scrolling.
    pub fn entry_mode(&self) -> (r: EntryMode)
        ensures
            r == self@.entry,
    {
        self.display_mode
    }

    /// The DDRAM base address of each row.
    pub fn row_offsets(&self) -> (r: [u8; 4])
        ensures
            r@ == self@.row_offsets,
    {
        self.row_offsets
    }

    /// The number of lines given to `begin`.
    pub fn num_lines(&self) -> (r: u8)
        ensures
            r == self@.num_lines,
    {
        self.num_lines
    }
}

} // verus!

//! Which GPIO lines the controller is wired to, and the lines of its bus.
use vstd::prelude::*;

verus! {

/// Raspberry Pi GPIO pins, by their line offset on the first GPIO chip.
#[derive(Debug, Clone, Copy, PartialEq, Eq, Structural)]
pub enum GpioPin {
    P0,
    P1,
    P2,
    P3,
    P4,
    P5,
    P6,
    P7,
    P8,
    P9,
    P10,
    P11,
    P12,
    P13,
    P14,
    P15,
    P16,
    P17,
    P18,
    P19,
    P20,
    P21,
    P22,
    P23,
    P24,
    P25,
    P26,
    P27,
}

/// The line offset of `p` on its GPIO chip.
pub open spec fn pin_offset(p: GpioPin) -> u32 {
    match p {
        GpioPin::P0 => 0,
        GpioPin::P1 => 1,
        GpioPin::P2 => 2,
        GpioPin::P3 => 3,
        GpioPin::P4 => 4,
        GpioPin::P5 => 5,
        GpioPin::P6 => 6,
        GpioPin::P7 => 7,
        GpioPin::P8 => 8,
        GpioPin::P9 => 9,
        GpioPin::P10 => 10,
        GpioPin::P11 => 11,
        GpioPin::P12 => 12,
        GpioPin::P13 => 13,
        GpioPin::P14 => 14,
        GpioPin::P15 => 15,
        GpioPin::P16 => 16,
        GpioPin::P17 => 17,
        GpioPin::P18 => 18,
        GpioPin::P19 => 19,
        GpioPin::P20 => 20,
        GpioPin::P21 => 21,
        GpioPin::P22 => 22,
        GpioPin::P23 => 23,
        GpioPin::P24 => 24,
        GpioPin::P25 => 25,
        GpioPin::P26 => 26,
        GpioPin::P27 => 27,
    }
}

impl GpioPin {
    /// The line offset of this pin on its GPIO chip.
    pub fn offset(&self) -> (r: u32)
        ensures
            r == pin_offset(*self),
            r < 28,
    {
        match self {
            GpioPin::P0 => 0,
            GpioPin::P1 => 1,
            GpioPin::P2 => 2,
            GpioPin::P3 => 3,
            GpioPin::P4 => 4,
            GpioPin::P5 => 5,
            GpioPin::P6 => 6,
            GpioPin::P7 => 7,
            GpioPin::P8 => 8,
            GpioPin::P9 => 9,
            GpioPin::P10 => 10,
            GpioPin::P11 => 11,
            GpioPin::P12 => 12,
            GpioPin::P13 => 13,
            GpioPin::P14 => 14,
            GpioPin::P15 => 15,
            GpioPin::P16 => 16,
            GpioPin::P17 => 17,
            GpioPin::P18 => 18,
            GpioPin::P19 => 19,
            GpioPin::P20 => 20,
            GpioPin::P21 => 21,
            GpioPin::P22 => 22,
            GpioPin::P23 => 23,
            GpioPin::P24 => 24,
            GpioPin::P25 => 25,
            GpioPin::P26 => 26,
            GpioPin::P27 => 27,
        }
    }
}

/// The GPIO pins the LCD is wired to.
///
/// The display works with 4 or 8 data lines. For 4-bit operation leave
/// `data[0]` to `data[3]` as `None` and wire LCD pins D4 to D7 to `data[4]`
/// to `data[7]`.
#[derive(Debug, Clone, Copy)]
pub struct Pins {
    /// Pin connected to the LCD RS (register select) pin.
    pub rs: GpioPin,
    /// Pin connected to the LCD RW pin; `None` when RW is tied to ground.
    pub rw: Option<GpioPin>,
    /// Pin connected to the LCD ENABLE pin.
    pub enable: GpioPin,
    /// Pins connected to LCD data pins D0 to D7.
    pub data: [Option<GpioPin>; 8],
}

/// Why a pin layout cannot drive the controller.
#[derive(Debug, Clone, Copy, PartialEq, Eq, Structural)]
pub enum BindingError {
    /// One of D4 to D7 is not connected; they carry every transfer.
    HighNibbleUnbound,
    /// Some but not all of D0 to D3 are connected.
    LowNibblePartial,
}

/// A logic level of an output line.
#[derive(Debug, Clone, Copy, PartialEq, Eq, Structural)]
pub enum Level {
    Low,
    High,
}

/// A line of the controller's bus.
#[derive(Debug, Clone, Copy, PartialEq, Eq, Structural)]
pub enum Line {
    Rs,
    Rw,
    Enable,
    /// Data line `D0` to `D7`.
    Data(u8),
}

pub open spec fn level_spec(bit: u8) -> Level {
    if bit == 0 {
        Level::Low
    } else {
        Level::High
    }
}

impl Level {
    /// The level that a single bit (`0` or `1`) drives.
    pub fn from(value: u8) -> (r: Level)
        requires
            value <= 1,
        ensures
            r == level_spec(value),
    {
        match value {
            0 => Level::Low,
            _ => Level::High,
        }
    }
}

/// `true` when the slots `lo..hi` of `data` are all connected.
pub open spec fn all_bound(data: Seq<Option<GpioPin>>, lo: int, hi: int) -> bool {
    forall|i: int| lo <= i < hi ==> (#[trigger] data[i]).is_some()
}

/// `true` when the slots `lo..hi` of `data` are all unconnected.
pub open spec fn none_bound(data: Seq<Option<GpioPin>>, lo: int, hi: int) -> bool {
    forall|i: int| lo <= i < hi ==> (#[trigger] data[i]).is_none()
}

impl Pins {
    /// A layout with 4 or 8 data lines: D4 to D7 connected, D0 to D3 either all
    /// connected or all left out.
    pub open spec fn layout_ok(&self) -> bool {
        &&& all_bound(self.data@, 4, 8)
        &&& (all_bound(self.data@, 0, 4) || none_bound(self.data@, 0, 4))
    }

    /// The bus width the wiring selects: 8 bits when the low data nibble is connected.
    pub open spec fn width_spec(&self) -> crate::command::BusWidth {
        if self.data@[0].is_some() {
            crate::command::BusWidth::Bits8
        } else {
            crate::command::BusWidth::Bits4
        }
    }

    /// Checks the data-line layout.
    pub fn check_layout(&self) -> (r: Result<(), BindingError>)
        ensures
            r is Ok <==> self.layout_ok(),
            r == Err::<(), _>(BindingError::HighNibbleUnbound) <==> !all_bound(self.data@, 4, 8),
    {
        let mut i: usize = 4;
        while i < 8
            invariant
                4 <= i <= 8,
                all_bound(self.data@, 4, i as int),
            decreases 8 - i,
        {
            if self.data[i].is_none() {
                return Err(BindingError::HighNibbleUnbound);
            }
            i = i + 1;
        }
        let low = self.data[0].is_some();
        let mut j: usize = 1;
        while j < 4
            invariant
                1 <= j <= 4,
                all_bound(self.data@, 4, 8),
                low == self.data@[0].is_some(),
                low ==> all_bound(self.data@, 0, j as int),
                !low ==> none_bound(self.data@, 0, j as int),
            decreases 4 - j,
        {
            if self.data[j].is_some() != low {
                return Err(BindingError::LowNibblePartial);
            }
            j = j + 1;
        }
        Ok(())
    }

    /// The bus width this wiring selects.
    pub fn width(&self) -> (r: crate::command::BusWidth)
        ensures
            r == self.width_spec(),
    {
        if self.data[0].is_some() {
            crate::command::BusWidth::Bits8
        } else {
            crate::command::BusWidth::Bits4
        }
    }
}

} // verus!

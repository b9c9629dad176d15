//! The transmission engine: how instruction and data bytes travel over the bus.
//!
//! Every byte-level [`Transfer`] lowers to an exact series of [`PinOp`]s, the
//! line writes and waits that the host performs in order.
use vstd::prelude::*;
use crate::command::BusWidth;
use crate::pins::{Level, Line, level_spec};

verus! {

/// One step of traffic on the controller's bus, at byte level.
#[derive(Debug, Clone, Copy, PartialEq, Eq, Structural)]
pub enum Transfer {
    /// Drive RS, ENABLE and (when bound) RW low.
    Reset,
    /// A single 4-bit transfer of the low nibble on D4 to D7.
    Nibble(u8),
    /// An instruction byte (RS low).
    Command(u8),
    /// A data byte (RS high).
    Data(u8),
    /// Hold the bus idle for this many microseconds.
    Wait(u64),
}

/// One step of traffic on the controller's bus, at line level.
#[derive(Debug, Clone, Copy, PartialEq, Eq, Structural)]
pub enum PinOp {
    /// Drive a line to a level.
    Write(Line, Level),
    /// Sleep for this many microseconds.
    Delay(u64),
}

/// The level of bit `i` of `value`.
pub open spec fn bit_level(value: u8, i: u8) -> Level {
    level_spec((value >> i) & 1u8)
}

/// The enable pulse: low, high, low, with 1 µs holds and a 100 µs settle.
pub open spec fn pulse_ops() -> Seq<PinOp> {
    seq![
        PinOp::Write(Line::Enable, Level::Low),
        PinOp::Delay(1),
        PinOp::Write(Line::Enable, Level::High),
        PinOp::Delay(1),
        PinOp::Write(Line::Enable, Level::Low),
        PinOp::Delay(100),
    ]
}

/// Bits `0..n` of `value` driven onto data lines `first..first + n`.
pub open spec fn data_writes(value: u8, first: u8, n: nat) -> Seq<PinOp> {
    Seq::new(n, |i: int| PinOp::Write(Line::Data((first + i) as u8), bit_level(value, i as u8)))
}

/// A 4-bit transfer: the low nibble of `value` on D4 to D7, then an enable pulse.
pub open spec fn nibble_ops(value: u8) -> Seq<PinOp> {
    data_writes(value, 4, 4) + pulse_ops()
}

/// An 8-bit transfer: `value` on D0 to D7, then an enable pulse.
pub open spec fn byte_ops(value: u8) -> Seq<PinOp> {
    data_writes(value, 0, 8) + pulse_ops()
}

/// The RW line held low, when one is bound.
pub open spec fn rw_low_ops(has_rw: bool) -> Seq<PinOp> {
    if has_rw {
        seq![PinOp::Write(Line::Rw, Level::Low)]
    } else {
        seq![]
    }
}

/// Sending `value` with RS at `rs`: high nibble first on a 4-bit bus.
pub open spec fn send_ops(width: BusWidth, has_rw: bool, value: u8, rs: Level) -> Seq<PinOp> {
    seq![PinOp::Write(Line::Rs, rs)] + rw_low_ops(has_rw) + match width {
        BusWidth::Bits8 => byte_ops(value),
        BusWidth::Bits4 => nibble_ops(value >> 4u8) + nibble_ops(value),
    }
}

/// Forcing the control lines low.
pub open spec fn reset_ops(has_rw: bool) -> Seq<PinOp> {
    seq![PinOp::Write(Line::Rs, Level::Low), PinOp::Write(Line::Enable, Level::Low)] + rw_low_ops(
        has_rw,
    )
}

/// The line-level form of one transfer.
pub open spec fn transfer_ops(width: BusWidth, has_rw: bool, t: Transfer) -> Seq<PinOp> {
    match t {
        Transfer::Reset => reset_ops(has_rw),
        Transfer::Nibble(n) => nibble_ops(n),
        Transfer::Command(b) => send_ops(width, has_rw, b, Level::Low),
        Transfer::Data(b) => send_ops(width, has_rw, b, Level::High),
        Transfer::Wait(us) => seq![PinOp::Delay(us)],
    }
}

/// The line-level form of a series of transfers, in order.
pub open spec fn lower(width: BusWidth, has_rw: bool, ts: Seq<Transfer>) -> Seq<PinOp>
    decreases ts.len(),
{
    if ts.len() == 0 {
        seq![]
    } else {
        lower(width, has_rw, ts.drop_last()) + transfer_ops(width, has_rw, ts.last())
    }
}

/// Appends an enable pulse.
pub fn pulse_enable(out: &mut Vec<PinOp>)
    ensures
        final(out)@ == old(out)@ + pulse_ops(),
{
    out.push(PinOp::Write(Line::Enable, Level::Low));
    out.push(PinOp::Delay(1));
    out.push(PinOp::Write(Line::Enable, Level::High));
    out.push(PinOp::Delay(1));
    out.push(PinOp::Write(Line::Enable, Level::Low));
    out.push(PinOp::Delay(100));
    assert(final(out)@ =~= old(out)@ + pulse_ops());
}

fn write_data_lines(value: u8, first: u8, n: u8, out: &mut Vec<PinOp>)
    requires
        first + n <= 8,
        n <= 8,
    ensures
        final(out)@ == old(out)@ + data_writes(value, first, n as nat),
{
    let mut i: u8 = 0;
    while i < n
        invariant
            i <= n,
            first + n <= 8,
            n <= 8,
            out@ == old(out)@ + data_writes(value, first, i as nat),
        decreases n - i,
    {
        let bit = (value >> i) & 0x01;
        assert((value >> i) & 1u8 <= 1u8) by (bit_vector);
        out.push(PinOp::Write(Line::Data(first + i), Level::from(bit)));
        i = i + 1;
        assert(out@ =~= old(out)@ + data_writes(value, first, i as nat));
    }
}

/// Appends a 4-bit transfer of the low nibble of `value`.
pub fn write_4_bits(value: u8, out: &mut Vec<PinOp>)
    ensures
        final(out)@ == old(out)@ + nibble_ops(value),
{
    write_data_lines(value, 4, 4, out);
    pulse_enable(out);
    assert(out@ =~= old(out)@ + nibble_ops(value));
}

/// Appends an 8-bit transfer of `value`.
pub fn write_8_bits(value: u8, out: &mut Vec<PinOp>)
    ensures
        final(out)@ == old(out)@ + byte_ops(value),
{
    write_data_lines(value, 0, 8, out);
    pulse_enable(out);
    assert(out@ =~= old(out)@ + byte_ops(value));
}

/// Appends the sending of `value` with RS at `rs`.
pub fn send(width: BusWidth, has_rw: bool, value: u8, rs: Level, out: &mut Vec<PinOp>)
    ensures
        final(out)@ == old(out)@ + send_ops(width, has_rw, value, rs),
{
    out.push(PinOp::Write(Line::Rs, rs));
    if has_rw {
        out.push(PinOp::Write(Line::Rw, Level::Low));
    }
    let ghost mid = out@;
    assert(mid =~= old(out)@ + seq![PinOp::Write(Line::Rs, rs)] + rw_low_ops(has_rw));
    match width {
        BusWidth::Bits8 => {
            write_8_bits(value, out);
        },
        BusWidth::Bits4 => {
            write_4_bits(value >> 4, out);
            write_4_bits(value, out);
        },
    }
    assert(out@ =~= old(out)@ + send_ops(width, has_rw, value, rs));
}

/// Appends the line-level form of one transfer.
pub fn transfer(width: BusWidth, has_rw: bool, t: Transfer, out: &mut Vec<PinOp>)
    ensures
        final(out)@ == old(out)@ + transfer_ops(width, has_rw, t),
{
    match t {
        Transfer::Reset => {
            out.push(PinOp::Write(Line::Rs, Level::Low));
            out.push(PinOp::Write(Line::Enable, Level::Low));
            if has_rw {
                out.push(PinOp::Write(Line::Rw, Level::Low));
            }
            assert(out@ =~= old(out)@ + reset_ops(has_rw));
        },
        Transfer::Nibble(n) => write_4_bits(n, out),
        Transfer::Command(b) => send(width, has_rw, b, Level::Low, out),
        Transfer::Data(b) => send(width, has_rw, b, Level::High, out),
        Transfer::Wait(us) => {
            out.push(PinOp::Delay(us));
            assert(out@ =~= old(out)@ + seq![PinOp::Delay(us)]);
        },
    }
}

/// The line writes and waits that carry `ts`, in order.
pub fn lower_all(width: BusWidth, has_rw: bool, ts: &Vec<Transfer>) -> (r: Vec<PinOp>)
    ensures
        r@ == lower(width, has_rw, ts@),
{
    let mut out: Vec<PinOp> = Vec::new();
    let mut i: usize = 0;
    while i < ts.len()
        invariant
            i <= ts@.len(),
            out@ == lower(width, has_rw, ts@.take(i as int)),
        decreases ts@.len() - i,
    {
        transfer(width, has_rw, ts[i], &mut out);
        assert(ts@.take(i as int + 1).drop_last() =~= ts@.take(i as int));
        i = i + 1;
    }
    assert(ts@.take(i as int) =~= ts@);
    out
}

} // verus!

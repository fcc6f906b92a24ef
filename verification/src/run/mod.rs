//! Running the CPU core on one song of a GBS file, and recording what the
//! driver does to the sound hardware.

use vstd::prelude::*;
use crate::diag::{Address, Diagnostic, Timestamp};

pub mod addr_space;
pub mod call;
pub mod cpu;
pub mod logbook;
pub mod song;

pub use call::{call_step, in_frame, in_io, returned_sp, run_func, CallStep, Machine};
pub use logbook::{LogbookWriter, WriterState};
pub use song::{
    begin_tick, cycles_per_tick, end_tick, load_song, simulate_song, Limits, LogbookView, TickEnd,
};

verus! {

/// One write to the sound hardware.
#[derive(Debug, Clone, Copy, PartialEq, Eq, Structural)]
pub struct IoAccess {
    pub when: Timestamp,
    pub pc: Address,
    pub addr: u16,
    pub data: u8,
}

/// What a driver did that it should not have; none of these stops a song.
#[derive(Debug, Clone, Copy, PartialEq, Eq, Structural)]
pub enum DiagnosticKind {
    /// A read from a place where nothing is mapped.
    UnsupportedRead(Address),
    /// A write to a place where nothing is mapped, or of ROM bank 0.
    UnsupportedWrite(Address, u8),
    /// A read from the mirror of work RAM.
    EchoRamRead(Address),
    /// A write to the mirror of work RAM.
    EchoRamWrite(Address, u8),
    /// A tick took this many cycles, over the budget that follows.
    TooLong(u16, u16),
    /// A debugging opcode was executed.
    DebugOp(Address),
}

/// What stops a song at once.
#[derive(Debug, Clone, Copy, PartialEq, Eq, Structural)]
pub enum Error {
    /// A `halt` was executed.
    Halted(Address),
    /// A `stop` was executed.
    Stopped(Address),
    /// The opcode, and where it lies, that the CPU cannot execute.
    InvalidOpcode(u8, Address),
    /// The routine left with the stack pointer at the first value; the
    /// second is the one that it was entered with.
    PoppedTooDeep(u16, u16),
    /// One call ran for more cycles than can be counted.
    LockedUp(Address),
    /// The song ran out of its budget of cycles.
    Timeout,
    /// The program counter points into the I/O registers.
    PcHaywire(Address),
    /// The stack pointer, and the program counter beside it, when the stack
    /// points into the I/O registers.
    SpHaywire(Address, Address),
}

/// Everything recorded while one song ran.
#[derive(Debug)]
pub struct Logbook {
    pub diagnostics: Vec<Diagnostic<DiagnosticKind>>,
    pub io_log: Vec<IoAccess>,
}

impl Logbook {
    /// A logbook with nothing in it.
    pub fn new() -> (r: Self)
        ensures
            r.diagnostics@ == Seq::<Diagnostic<DiagnosticKind>>::empty(),
            r.io_log@ == Seq::<IoAccess>::empty(),
    {
        Logbook { diagnostics: Vec::new(), io_log: Vec::new() }
    }
}

impl Default for Logbook {
    fn default() -> (r: Self)
        ensures
            r.diagnostics@ == Seq::<Diagnostic<DiagnosticKind>>::empty(),
            r.io_log@ == Seq::<IoAccess>::empty(),
    {
        Logbook::new()
    }
}

} // verus!

//! The writer of a song's logbook: the one place that knows the time and the
//! place of what is recorded.

use vstd::prelude::*;
use crate::diag::{Address, Diagnostic, DiagnosticLevel, Timestamp};
use crate::run::{DiagnosticKind, IoAccess, Logbook};

verus! {

/// The writes of `log` come in the order of their times.
pub open spec fn accesses_in_order(log: Seq<IoAccess>) -> bool {
    forall|i: int, j: int| 0 <= i <= j < log.len() ==> log[i].when.le(log[j].when)
}

/// The diagnostics of `log` come in the order of their times.
pub open spec fn diagnostics_in_order(log: Seq<Diagnostic<DiagnosticKind>>) -> bool {
    forall|i: int, j: int| 0 <= i <= j < log.len() ==> log[i].when.le(log[j].when)
}

/// What a `LogbookWriter` holds: the two logs so far, the threshold for
/// diagnostics, and the time and place that the next record is stamped with.
pub struct WriterState {
    pub diagnostics: Seq<Diagnostic<DiagnosticKind>>,
    pub io_log: Seq<IoAccess>,
    pub max_level: DiagnosticLevel,
    pub rom_bank: u8,
    pub pc: u16,
    pub tick: u64,
    pub cycle: u16,
}

impl WriterState {
    /// The current time.
    pub open spec fn now(self) -> Timestamp {
        Timestamp { tick: self.tick, cycle: self.cycle }
    }

    /// The current place: the ROM bank and the program counter.
    pub open spec fn here(self) -> Address {
        Address(self.rom_bank, self.pc)
    }

    /// The state once the write of `data` to `addr` is recorded.
    pub open spec fn logged(self, addr: u16, data: u8) -> WriterState {
        WriterState {
            io_log: self.io_log.push(IoAccess { when: self.now(), pc: self.here(), addr, data }),
            ..self
        }
    }

    /// The state once a diagnostic has been raised: recorded if its level
    /// passes the threshold, dropped if not.
    pub open spec fn diagnosed(self, level: DiagnosticLevel, kind: DiagnosticKind) -> WriterState {
        if level.spec_passes(self.max_level) {
            WriterState {
                diagnostics: self.diagnostics.push(
                    Diagnostic { when: self.now(), pc: self.here(), level, kind },
                ),
                ..self
            }
        } else {
            self
        }
    }

    /// The state at the start of the next tick.
    pub open spec fn ticked(self) -> WriterState {
        WriterState { tick: (self.tick + 1) as u64, cycle: 0, ..self }
    }

    /// The state `cycles` later in the same tick.
    pub open spec fn advanced(self, cycles: u16) -> WriterState {
        WriterState { cycle: (self.cycle + cycles) as u16, ..self }
    }

    /// Both logs are in the order of time, and nothing in them is later than
    /// now.
    pub open spec fn wf(self) -> bool {
        &&& accesses_in_order(self.io_log)
        &&& diagnostics_in_order(self.diagnostics)
        &&& forall|i: int| 0 <= i < self.io_log.len() ==> self.io_log[i].when.le(self.now())
        &&& forall|i: int|
            0 <= i < self.diagnostics.len() ==> self.diagnostics[i].when.le(self.now())
    }
}

/// The logbook writer at the start of a song: empty logs, ROM bank 1 mapped,
/// and the clock at the start of tick 0.
pub open spec fn fresh_writer(max_level: DiagnosticLevel) -> WriterState {
    WriterState {
        diagnostics: Seq::empty(),
        io_log: Seq::empty(),
        max_level,
        rom_bank: 1,
        pc: 0,
        tick: 0,
        cycle: 0,
    }
}

/// Keeps the two logs of a song, and the clock and the place that every record
/// is stamped with.
#[derive(Debug)]
pub struct LogbookWriter {
    pub logbook: Logbook,
    pub max_level: DiagnosticLevel,
    /// The ROM bank that is mapped at 0x4000.
    pub rom_bank: u8,
    pub pc: u16,
    pub tick: u64,
    pub cycle: u16,
}

impl View for LogbookWriter {
    type V = WriterState;

    open spec fn view(&self) -> WriterState {
        WriterState {
            diagnostics: self.logbook.diagnostics@,
            io_log: self.logbook.io_log@,
            max_level: self.max_level,
            rom_bank: self.rom_bank,
            pc: self.pc,
            tick: self.tick,
            cycle: self.cycle,
        }
    }
}

impl LogbookWriter {
    /// A writer that continues `logbook`, at the start of tick 0 with ROM
    /// bank 1 mapped.
    pub fn new(logbook: Logbook, max_level: DiagnosticLevel) -> (r: Self)
        ensures
            r@ == (WriterState {
                diagnostics: logbook.diagnostics@,
                io_log: logbook.io_log@,
                max_level,
                rom_bank: 1,
                pc: 0,
                tick: 0,
                cycle: 0,
            }),
    {
        LogbookWriter { logbook, max_level, rom_bank: 1, pc: 0, tick: 0, cycle: 0 }
    }

    /// Starts the next tick.
    pub fn next_tick(&mut self)
        requires
            old(self).tick < u64::MAX,
        ensures
            final(self)@ == old(self)@.ticked(),
            final(self).tick == old(self).tick + 1,
    {
        self.tick += 1;
        self.cycle = 0;
    }

    /// The current time.
    pub fn now(&self) -> (r: Timestamp)
        ensures
            r == self@.now(),
    {
        Timestamp { tick: self.tick, cycle: self.cycle }
    }

    /// Records the write of `data` to `addr`.
    pub fn log(&mut self, addr: u16, data: u8)
        ensures
            final(self)@ == old(self)@.logged(addr, data),
    {
        let access = IoAccess {
            when: self.now(),
            pc: Address(self.rom_bank, self.pc),
            addr,
            data,
        };
        self.logbook.io_log.push(access);
    }

    /// Raises a diagnostic; it is recorded if its level passes the threshold.
    pub fn diagnose(&mut self, level: DiagnosticLevel, kind: DiagnosticKind)
        ensures
            final(self)@ == old(self)@.diagnosed(level, kind),
    {
        if level.passes(self.max_level) {
            let diagnostic = Diagnostic {
                when: self.now(),
                pc: Address(self.rom_bank, self.pc),
                level,
                kind,
            };
            self.logbook.diagnostics.push(diagnostic);
        }
    }

    /// Gives the logbook back.
    pub fn into_logbook(self) -> (r: Logbook)
        ensures
            r.diagnostics@ == self@.diagnostics,
            r.io_log@ == self@.io_log,
    {
        self.logbook
    }
}

/// Recording a write keeps the logs in order.
pub proof fn lemma_logged_keeps_order(w: WriterState, addr: u16, data: u8)
    requires
        w.wf(),
    ensures
        w.logged(addr, data).wf(),
{
}

/// Raising a diagnostic keeps the logs in order.
pub proof fn lemma_diagnosed_keeps_order(
    w: WriterState,
    level: DiagnosticLevel,
    kind: DiagnosticKind,
)
    requires
        w.wf(),
    ensures
        w.diagnosed(level, kind).wf(),
{
}

/// Time that moves forward keeps the logs in order.
pub proof fn lemma_clock_keeps_order(w: WriterState, cycles: u16)
    requires
        w.wf(),
    ensures
        w.tick < u64::MAX ==> w.ticked().wf(),
        w.cycle + cycles <= u16::MAX ==> w.advanced(cycles).wf(),
{
}

} // verus!

//! The interpreter of one call: it steps the CPU until the routine returns
//! to the caller that never was, or fails.

use vstd::prelude::*;
use crate::diag::{Address, DiagnosticLevel};
use crate::run::addr_space::{BusState, GbsAddrSpace};
use crate::run::cpu::{
    can_run, cpu_regs, lemma_apply_frame, runnable, tick_effect, Cpu, CpuRegs, TickOutcome,
};
use crate::run::logbook::WriterState;
use crate::run::{DiagnosticKind, Error};

verus! {

/// The CPU and the address space that it runs on.
pub struct Machine {
    pub regs: CpuRegs,
    pub bus: BusState,
}

/// Where a routine stands after one step of the interpreter.
#[derive(Debug, Clone, Copy, PartialEq, Eq, Structural)]
pub enum CallStep {
    /// An instruction was run; the routine has taken this many cycles so far.
    Running(u16),
    /// The routine has returned, after this many cycles.
    Returned(u16),
    /// The routine cannot go on.
    Failed(Error),
}

/// An address among the I/O registers, where neither code nor stack can be.
pub open spec fn spec_in_io(addr: u16) -> bool {
    0xFF00 <= addr <= 0xFF7F
}

/// Whether `addr` lies among the I/O registers.
#[verifier::when_used_as_spec(spec_in_io)]
pub fn in_io(addr: u16) -> (r: bool)
    ensures
        r == spec_in_io(addr),
{
    0xFF00 <= addr && addr <= 0xFF7F
}

/// The routine is still within its stack frame: the stack is in RAM and not
/// above where it was on entry.
pub open spec fn spec_in_frame(sp: u16, orig_sp: u16) -> bool {
    sp >= 0x8000 && sp <= orig_sp
}

/// Whether the routine is still within its stack frame.
#[verifier::when_used_as_spec(spec_in_frame)]
pub fn in_frame(sp: u16, orig_sp: u16) -> (r: bool)
    ensures
        r == spec_in_frame(sp, orig_sp),
{
    sp >= 0x8000 && sp <= orig_sp
}

/// The stack pointer once the return address that the caller left has been
/// popped.
pub open spec fn spec_returned_sp(orig_sp: u16) -> u16 {
    if orig_sp <= 0xFFFD {
        (orig_sp + 2) as u16
    } else {
        (orig_sp - 0xFFFE) as u16
    }
}

/// The stack pointer once the return address that the caller left has been
/// popped.
#[verifier::when_used_as_spec(spec_returned_sp)]
pub fn returned_sp(orig_sp: u16) -> (r: u16)
    ensures
        r == spec_returned_sp(orig_sp),
{
    if orig_sp <= 0xFFFD {
        orig_sp + 2
    } else {
        orig_sp - 0xFFFE
    }
}

/// One step of the interpreter on a routine that was entered with the stack
/// pointer at `orig_sp` and has taken `total` cycles so far.
///
/// Outside the frame the routine is over: it has returned if exactly the
/// return address was popped, and has failed if not. Inside the frame the
/// state is checked, one instruction is run, and its cycles are counted. The
/// routine is locked up once the count does not fit in 16 bits, and also if
/// an instruction should take no cycle at all.
pub open spec fn step_model(m: Machine, orig_sp: u16, total: u16) -> (Machine, CallStep) {
    let pc = m.regs.pc;
    let sp = m.regs.sp;
    let prev_pc = Address(m.bus.writer.rom_bank, pc);
    let bus = BusState { writer: WriterState { pc, ..m.bus.writer }, ..m.bus };
    let at = Machine { regs: m.regs, bus };
    if !spec_in_frame(sp, orig_sp) {
        if sp == spec_returned_sp(orig_sp) {
            (m, CallStep::Returned(total))
        } else {
            (m, CallStep::Failed(Error::PoppedTooDeep(sp, orig_sp)))
        }
    } else if spec_in_io(pc) {
        (at, CallStep::Failed(Error::PcHaywire(prev_pc)))
    } else if spec_in_io(sp) {
        (at, CallStep::Failed(Error::SpHaywire(Address(prev_pc.0, sp), prev_pc)))
    } else if !can_run(bus, pc) {
        (at, CallStep::Failed(Error::InvalidOpcode(bus.peek(pc), prev_pc)))
    } else {
        let effect = tick_effect(m.regs, bus);
        let ticked = bus.apply(effect.ops);
        let regs = effect.regs;
        match effect.outcome {
            TickOutcome::Halt => (
                Machine { regs, bus: ticked },
                CallStep::Failed(Error::Halted(prev_pc)),
            ),
            TickOutcome::Stop => (
                Machine { regs, bus: ticked },
                CallStep::Failed(Error::Stopped(prev_pc)),
            ),
            TickOutcome::InvalidOpcode => (
                Machine { regs, bus: ticked },
                CallStep::Failed(Error::InvalidOpcode(ticked.peek(pc), prev_pc)),
            ),
            outcome => {
                let noted = if outcome is Completed {
                    ticked
                } else {
                    ticked.noted(Some((DiagnosticLevel::Note, DiagnosticKind::DebugOp(prev_pc))))
                };
                if effect.cycles == 0 || total + effect.cycles > u16::MAX {
                    (Machine { regs, bus: noted }, CallStep::Failed(Error::LockedUp(prev_pc)))
                } else {
                    (
                        Machine {
                            regs,
                            bus: BusState {
                                writer: noted.writer.advanced(effect.cycles as u16),
                                ..noted
                            },
                        },
                        CallStep::Running((total + effect.cycles) as u16),
                    )
                }
            },
        }
    }
}

/// The whole routine: steps until it returns or fails. Every step that leaves
/// the routine running counts at least one cycle, so the steps come to an end.
pub open spec fn call_model(m: Machine, orig_sp: u16, total: u16) -> (Machine, Result<u16, Error>)
    decreases 0x10000 - total,
{
    let (next, step) = step_model(m, orig_sp, total);
    match step {
        CallStep::Running(so_far) => call_model(next, orig_sp, so_far),
        CallStep::Returned(cycles) => (next, Ok(cycles)),
        CallStep::Failed(err) => (next, Err(err)),
    }
}

/// A step keeps the machine well formed, changes neither the tick nor the
/// threshold for diagnostics nor the ROM, and only adds to the logs. While
/// the routine runs, the clock stays within the cycles counted.
pub proof fn lemma_step_frame(m: Machine, orig_sp: u16, total: u16)
    requires
        m.bus.wf(),
        m.bus.writer.cycle <= total,
    ensures
        ({
            let (next, step) = step_model(m, orig_sp, total);
            &&& next.bus.wf()
            &&& next.bus.rom == m.bus.rom
            &&& next.bus.load_addr == m.bus.load_addr
            &&& next.bus.writer.tick == m.bus.writer.tick
            &&& next.bus.writer.max_level == m.bus.writer.max_level
            &&& m.bus.writer.io_log.is_prefix_of(next.bus.writer.io_log)
            &&& m.bus.writer.diagnostics.is_prefix_of(next.bus.writer.diagnostics)
            &&& step matches CallStep::Running(so_far) ==> next.bus.writer.cycle <= so_far
        }),
{
    let pc = m.regs.pc;
    let bus = BusState { writer: WriterState { pc, ..m.bus.writer }, ..m.bus };
    let effect = tick_effect(m.regs, bus);
    lemma_apply_frame(bus, effect.ops);
}

/// One step of the interpreter: see `step_model`.
pub fn call_step<'a>(cpu: &mut Cpu<'a>, bus: &mut GbsAddrSpace<'a>, orig_sp: u16, total: u16) -> (r:
    CallStep)
    requires
        old(bus)@.wf(),
        old(bus)@.writer.cycle <= total,
    ensures
        (Machine { regs: cpu_regs(*final(cpu)), bus: final(bus)@ }, r) == step_model(
            Machine { regs: cpu_regs(*old(cpu)), bus: old(bus)@ },
            orig_sp,
            total,
        ),
        final(bus)@.wf(),
        r matches CallStep::Running(so_far) ==> so_far > total && final(bus)@.writer.cycle
            <= so_far,
{
    proof {
        lemma_step_frame(Machine { regs: cpu_regs(*cpu), bus: bus@ }, orig_sp, total);
    }
    let regs = cpu.regs();
    if !in_frame(regs.sp, orig_sp) {
        if regs.sp == returned_sp(orig_sp) {
            return CallStep::Returned(total);
        }
        return CallStep::Failed(Error::PoppedTooDeep(regs.sp, orig_sp));
    }
    let prev_pc = Address(bus.logger.rom_bank, regs.pc);
    bus.logger.pc = regs.pc;
    // Neither code nor a stack can lie among the I/O registers.
    if in_io(regs.pc) {
        return CallStep::Failed(Error::PcHaywire(prev_pc));
    }
    if in_io(regs.sp) {
        return CallStep::Failed(Error::SpHaywire(Address(prev_pc.0, regs.sp), prev_pc));
    }
    if !runnable(bus, regs.pc) {
        return CallStep::Failed(Error::InvalidOpcode(bus.peek(regs.pc), prev_pc));
    }
    let ghost before = bus@;
    let (outcome, elapsed) = cpu.tick(bus);
    proof {
        lemma_apply_frame(before, tick_effect(regs, before).ops);
    }
    match outcome {
        TickOutcome::Completed => {},
        TickOutcome::Debug | TickOutcome::Break => {
            bus.diagnose(DiagnosticLevel::Note, DiagnosticKind::DebugOp(prev_pc));
        },
        TickOutcome::Halt => {
            return CallStep::Failed(Error::Halted(prev_pc));
        },
        TickOutcome::Stop => {
            return CallStep::Failed(Error::Stopped(prev_pc));
        },
        TickOutcome::InvalidOpcode => {
            return CallStep::Failed(Error::InvalidOpcode(bus.peek(prev_pc.1), prev_pc));
        },
    }
    if elapsed == 0 || elapsed > (u16::MAX - total) as usize {
        return CallStep::Failed(Error::LockedUp(prev_pc));
    }
    let elapsed: u16 = elapsed as u16;
    bus.logger.cycle = bus.logger.cycle + elapsed;
    CallStep::Running(total + elapsed)
}

/// Runs the routine that the CPU has been pointed at until it returns, and
/// gives the cycles that it took.
///
/// The routine has returned when the stack pointer stands two above where it
/// stood on entry. If the stack pointer leaves the frame in another way, or
/// the CPU cannot go on, the routine has failed.
pub fn run_func<'a>(cpu: &mut Cpu<'a>, bus: &mut GbsAddrSpace<'a>) -> (r: Result<u16, Error>)
    requires
        old(bus)@.wf(),
        old(bus)@.writer.cycle == 0,
    ensures
        (Machine { regs: cpu_regs(*final(cpu)), bus: final(bus)@ }, r) == call_model(
            Machine { regs: cpu_regs(*old(cpu)), bus: old(bus)@ },
            cpu_regs(*old(cpu)).sp,
            0,
        ),
        final(bus)@.wf(),
        final(bus)@.rom == old(bus)@.rom,
        final(bus)@.load_addr == old(bus)@.load_addr,
        final(bus)@.writer.tick == old(bus)@.writer.tick,
        final(bus)@.writer.max_level == old(bus)@.writer.max_level,
        old(bus)@.writer.io_log.is_prefix_of(final(bus)@.writer.io_log),
        old(bus)@.writer.diagnostics.is_prefix_of(final(bus)@.writer.diagnostics),
{
    let orig_sp: u16 = cpu.regs().sp;
    let mut total: u16 = 0;
    loop
        invariant
            bus@.wf(),
            bus@.writer.cycle <= total,
            orig_sp == cpu_regs(*old(cpu)).sp,
            call_model(Machine { regs: cpu_regs(*cpu), bus: bus@ }, orig_sp, total) == call_model(
                Machine { regs: cpu_regs(*old(cpu)), bus: old(bus)@ },
                orig_sp,
                0,
            ),
            bus@.rom == old(bus)@.rom,
            bus@.load_addr == old(bus)@.load_addr,
            bus@.writer.tick == old(bus)@.writer.tick,
            bus@.writer.max_level == old(bus)@.writer.max_level,
            old(bus)@.writer.io_log.is_prefix_of(bus@.writer.io_log),
            old(bus)@.writer.diagnostics.is_prefix_of(bus@.writer.diagnostics),
        decreases 0x10000 - total,
    {
        let ghost at = Machine { regs: cpu_regs(*cpu), bus: bus@ };
        proof {
            lemma_step_frame(at, orig_sp, total);
        }
        match call_step(cpu, bus, orig_sp, total) {
            CallStep::Running(so_far) => {
                total = so_far;
            },
            CallStep::Returned(cycles) => {
                return Ok(cycles);
            },
            CallStep::Failed(err) => {
                return Err(err);
            },
        }
    }
}

/// A whole routine keeps the machine well formed, changes neither the tick
/// nor the threshold for diagnostics nor the ROM, and only adds to the logs.
pub proof fn lemma_call_frame(m: Machine, orig_sp: u16, total: u16)
    requires
        m.bus.wf(),
        m.bus.writer.cycle <= total,
    ensures
        ({
            let (next, returned) = call_model(m, orig_sp, total);
            &&& next.bus.wf()
            &&& next.bus.rom == m.bus.rom
            &&& next.bus.load_addr == m.bus.load_addr
            &&& next.bus.writer.tick == m.bus.writer.tick
            &&& next.bus.writer.max_level == m.bus.writer.max_level
            &&& m.bus.writer.io_log.is_prefix_of(next.bus.writer.io_log)
            &&& m.bus.writer.diagnostics.is_prefix_of(next.bus.writer.diagnostics)
        }),
    decreases 0x10000 - total,
{
    lemma_step_frame(m, orig_sp, total);
    let (next, step) = step_model(m, orig_sp, total);
    match step {
        CallStep::Running(so_far) => {
            lemma_call_frame(next, orig_sp, so_far);
        },
        _ => {},
    }
}

} // verus!

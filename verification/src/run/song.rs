//! A whole song: the init routine once, then the play routine tick after
//! tick until the song is over.

use vstd::prelude::*;
use crate::diag::{Diagnostic, DiagnosticLevel};
use crate::gbs::{div_bit_of, header_fault, le16, AddressKind, Gbs};
use crate::run::addr_space::{accesses_in_band, fresh_bus, BusState, GbsAddrSpace};
use crate::run::call::{call_model, run_func, Machine};
use crate::run::cpu::{cpu_regs, reset_regs, Cpu, CpuRegs};
use crate::run::logbook::{
    accesses_in_order, diagnostics_in_order, fresh_writer, LogbookWriter,
};
use crate::run::{DiagnosticKind, Error, IoAccess, Logbook};

verus! {

/// Cycles in one frame of the screen: 154 lines of 114 cycles.
pub const CYCLES_PER_FRAME: u16 = 17556;

/// Two to the power of the divider bit: the cycles that the timer takes for
/// one count.
pub open spec fn timer_period(div_bit: u8) -> int {
    if div_bit == 9 {
        512
    } else if div_bit == 3 {
        8
    } else if div_bit == 5 {
        32
    } else {
        128
    }
}

/// The cycles between two calls of the play routine: a frame of the screen,
/// or, where the header asks for the timer, the timer's period times the
/// counts until it overflows. `None` where that product is no 16-bit number.
pub open spec fn spec_cycles_per_tick(header: Seq<u8>) -> Option<u16> {
    if header[15] & 4 != 0 {
        let cycles = timer_period(div_bit_of(header[15])) * (256 - header[14]);
        if cycles <= u16::MAX {
            Some(cycles as u16)
        } else {
            None
        }
    } else {
        Some(CYCLES_PER_FRAME)
    }
}

/// The cycles between two calls of the play routine of `gbs`; `None` where
/// they are too many for a 16-bit number.
pub fn cycles_per_tick(gbs: &Gbs) -> (r: Option<u16>)
    ensures
        r == spec_cycles_per_tick(gbs@),
        r matches Some(cycles) ==> cycles >= 8,
{
    if gbs.use_timer() {
        let div_bit: u8 = gbs.timer_div_bit();
        let period: u32 = if div_bit == 9 {
            512
        } else if div_bit == 3 {
            8
        } else if div_bit == 5 {
            32
        } else {
            128
        };
        let counts: u32 = 256 - gbs.timer_mod() as u32;
        assert(period * counts <= 512 * 256) by (nonlinear_arith)
            requires
                period <= 512,
                counts <= 256,
        ;
        assert(period * counts >= 8) by (nonlinear_arith)
            requires
                period >= 8,
                counts >= 1,
        ;
        let cycles: u32 = period * counts;
        if cycles <= 0xFFFF {
            Some(cycles as u16)
        } else {
            None
        }
    } else {
        Some(CYCLES_PER_FRAME)
    }
}

/// What ends a song other than a failure of its driver.
#[derive(Debug, Clone, Copy)]
pub struct Limits {
    /// The cycles that the song may still run for.
    pub timeout: u32,
    /// Whether running out of those cycles ends the song in success.
    pub allow_timeout: bool,
    /// The song is over after this many cycles without a write to the sound
    /// hardware.
    pub silence_timeout: u32,
    /// The song is over once this address holds this value.
    pub watch: Option<(u16, u8)>,
}

/// How a tick ended.
#[derive(Debug, Clone, Copy, PartialEq, Eq, Structural)]
pub enum TickEnd {
    /// The song goes on, with this many cycles left of its timeout.
    Continue(u32),
    /// The song is over.
    Finished,
    /// The song has failed.
    Failed(Error),
}

/// The end of a tick whose play routine took `cycles` cycles.
///
/// A routine that ran over the budget is warned about. Then the three ends
/// are tried in this order: silence for long enough; the watched address
/// holding the watched value, which takes a read from it; the timeout, which
/// is a failure unless it is allowed. A tick that does not end in silence adds
/// its budget to the silence timer, which stops at the largest number that it
/// can hold.
pub open spec fn end_tick_model(bus: BusState, cycles: u16, cycles_per_tick: u16, limits: Limits)
    -> (BusState, TickEnd) {
    let noted = if cycles > cycles_per_tick {
        bus.noted(
            Some((DiagnosticLevel::Warning, DiagnosticKind::TooLong(cycles, cycles_per_tick))),
        )
    } else {
        bus
    };
    if noted.silence_timer >= limits.silence_timeout {
        (noted, TickEnd::Finished)
    } else {
        let waited = BusState {
            silence_timer: if noted.silence_timer + cycles_per_tick <= u32::MAX {
                (noted.silence_timer + cycles_per_tick) as u32
            } else {
                u32::MAX
            },
            ..noted
        };
        let (watched, hit) = match limits.watch {
            Some((addr, value)) => (waited.after_read(addr), waited.peek(addr) == value),
            None => (waited, false),
        };
        if hit {
            (watched, TickEnd::Finished)
        } else if limits.timeout >= cycles_per_tick {
            (watched, TickEnd::Continue((limits.timeout - cycles_per_tick) as u32))
        } else if limits.allow_timeout {
            (watched, TickEnd::Finished)
        } else {
            (watched, TickEnd::Failed(Error::Timeout))
        }
    }
}

/// Ends a tick whose play routine took `cycles` cycles: see
/// `end_tick_model`.
pub fn end_tick(bus: &mut GbsAddrSpace, cycles: u16, cycles_per_tick: u16, limits: &Limits) -> (r:
    TickEnd)
    requires
        old(bus)@.wf(),
    ensures
        (final(bus)@, r) == end_tick_model(old(bus)@, cycles, cycles_per_tick, *limits),
        final(bus)@.wf(),
{
    proof {
        lemma_end_tick_frame(bus@, cycles, cycles_per_tick, *limits);
    }
    if cycles > cycles_per_tick {
        bus.diagnose(DiagnosticLevel::Warning, DiagnosticKind::TooLong(cycles, cycles_per_tick));
    }
    if bus.silence_timer >= limits.silence_timeout {
        return TickEnd::Finished;
    }
    bus.silence_timer = if bus.silence_timer <= u32::MAX - cycles_per_tick as u32 {
        bus.silence_timer + cycles_per_tick as u32
    } else {
        u32::MAX
    };
    match limits.watch {
        Some((addr, value)) => {
            if bus.read(addr) == value {
                return TickEnd::Finished;
            }
        },
        None => {},
    }
    if limits.timeout >= cycles_per_tick as u32 {
        TickEnd::Continue(limits.timeout - cycles_per_tick as u32)
    } else if limits.allow_timeout {
        TickEnd::Finished
    } else {
        TickEnd::Failed(Error::Timeout)
    }
}

/// The end of a tick keeps the address space well formed and only adds to
/// the logs.
pub proof fn lemma_end_tick_frame(bus: BusState, cycles: u16, cycles_per_tick: u16, limits: Limits)
    requires
        bus.wf(),
    ensures
        ({
            let (next, end) = end_tick_model(bus, cycles, cycles_per_tick, limits);
            &&& next.wf()
            &&& next.rom == bus.rom
            &&& next.load_addr == bus.load_addr
            &&& next.writer.tick == bus.writer.tick
            &&& next.writer.max_level == bus.writer.max_level
            &&& bus.writer.io_log.is_prefix_of(next.writer.io_log)
            &&& bus.writer.diagnostics.is_prefix_of(next.writer.diagnostics)
        }),
{
}

/// Once the sound hardware has been silent for as long as the limit says,
/// the tick ends the song, whatever the watch and the timeout say.
pub proof fn lemma_silence_ends_song(
    bus: BusState,
    cycles: u16,
    cycles_per_tick: u16,
    limits: Limits,
)
    requires
        bus.silence_timer >= limits.silence_timeout,
    ensures
        end_tick_model(bus, cycles, cycles_per_tick, limits).1 == TickEnd::Finished,
{
}

/// A tick that does not end the song adds its cycles to the silence timer,
/// up to the largest number that the timer can hold.
pub proof fn lemma_silence_accumulates(
    bus: BusState,
    cycles: u16,
    cycles_per_tick: u16,
    limits: Limits,
)
    requires
        end_tick_model(bus, cycles, cycles_per_tick, limits).1 is Continue,
    ensures
        end_tick_model(bus, cycles, cycles_per_tick, limits).0.silence_timer == if bus.silence_timer
            + cycles_per_tick <= u32::MAX {
            bus.silence_timer + cycles_per_tick
        } else {
            u32::MAX as int
        },
{
}

/// Only a write that the sound hardware answers sets the silence timer back;
/// no other access touches it.
pub proof fn lemma_silence_reset_by_apu_only(bus: BusState, addr: u16, data: u8)
    ensures
        bus.after_read(addr).silence_timer == bus.silence_timer,
        bus.after_write(addr, data).silence_timer == if 0xFF00 <= addr < 0xFF80
            && crate::run::addr_space::apu_handles(addr) {
            0
        } else {
            bus.silence_timer
        },
{
}

/// Where the watched address holds the watched value, the tick ends the
/// song in success, even if its timeout runs out in the same tick.
pub proof fn lemma_watch_beats_timeout(
    bus: BusState,
    cycles: u16,
    cycles_per_tick: u16,
    limits: Limits,
    addr: u16,
    value: u8,
)
    requires
        limits.watch == Some((addr, value)),
        bus.peek(addr) == value,
    ensures
        end_tick_model(bus, cycles, cycles_per_tick, limits).1 == TickEnd::Finished,
{
}

/// The machine on which the init routine of song `song_id` is about to run:
/// a new CPU with the song in `a`, on the fresh address space of the file.
pub open spec fn init_machine(file: Seq<u8>, song_id: u8, max_level: DiagnosticLevel) -> Machine {
    Machine {
        regs: CpuRegs { a: song_id, sp: le16(file, 12), pc: le16(file, 8), ..reset_regs() },
        bus: fresh_bus(file, fresh_writer(max_level)),
    }
}

/// The machine at the start of the next tick: the clock stands at the start
/// of the tick, and the CPU at the play routine.
pub open spec fn tick_begun(file: Seq<u8>, m: Machine) -> Machine {
    Machine {
        regs: CpuRegs { sp: le16(file, 12), pc: le16(file, 10), ..m.regs },
        bus: BusState { writer: m.bus.writer.ticked(), ..m.bus },
    }
}

/// One tick: the play routine, and then the end of the tick.
pub open spec fn tick_model(file: Seq<u8>, m: Machine, cycles_per_tick: u16, limits: Limits) -> (
    Machine,
    TickEnd,
) {
    let (played, returned) = call_model(tick_begun(file, m), le16(file, 12), 0);
    match returned {
        Ok(cycles) => {
            let (bus, end) = end_tick_model(played.bus, cycles, cycles_per_tick, limits);
            (Machine { regs: played.regs, bus }, end)
        },
        Err(err) => (played, TickEnd::Failed(err)),
    }
}

/// The ticks of a song, one after the other, until one ends it.
pub open spec fn play_model(file: Seq<u8>, m: Machine, cycles_per_tick: u16, limits: Limits) -> (
    Machine,
    Result<(), Error>,
)
    decreases limits.timeout,
    when cycles_per_tick > 0
{
    let (next, end) = tick_model(file, m, cycles_per_tick, limits);
    match end {
        TickEnd::Continue(left) => play_model(
            file,
            next,
            cycles_per_tick,
            Limits { timeout: left, ..limits },
        ),
        TickEnd::Finished => (next, Ok(())),
        TickEnd::Failed(err) => (next, Err(err)),
    }
}

/// What is in a logbook: its diagnostics and its writes.
pub type LogbookView = (Seq<Diagnostic<DiagnosticKind>>, Seq<IoAccess>);

/// The whole simulation of one song: the init routine in tick 0, then the
/// play routine tick after tick. The result is the logbook, or the failure
/// that stopped the song.
pub open spec fn song_model(
    file: Seq<u8>,
    song_id: u8,
    max_level: DiagnosticLevel,
    limits: Limits,
) -> Result<LogbookView, Error>
    recommends
        header_fault(file) is None,
        spec_cycles_per_tick(file) is Some,
{
    let (inited, returned) = call_model(init_machine(file, song_id, max_level), le16(file, 12), 0);
    match returned {
        Err(err) => Err(err),
        Ok(_) => {
            let (ended, result) = play_model(
                file,
                inited,
                spec_cycles_per_tick(file).unwrap(),
                limits,
            );
            match result {
                Ok(()) => Ok((ended.bus.writer.diagnostics, ended.bus.writer.io_log)),
                Err(err) => Err(err),
            }
        },
    }
}

/// Loads song `song_id` of `gbs`: a CPU and an address space on which the
/// init routine is about to run.
pub fn load_song<'a>(gbs: &'a Gbs<'a>, song_id: u8, max_level: DiagnosticLevel) -> (r: (
    Cpu<'a>,
    GbsAddrSpace<'a>,
))
    ensures
        (Machine { regs: cpu_regs(r.0), bus: r.1@ }) == init_machine(gbs@, song_id, max_level),
        r.1@.wf(),
{
    let bus = GbsAddrSpace::new(gbs, LogbookWriter::new(Logbook::new(), max_level));
    let mut cpu = Cpu::new(GbsAddrSpace::parked(max_level));
    cpu.set_a(song_id);
    cpu.enter(gbs.stack_ptr(), gbs.addr(AddressKind::Init));
    (cpu, bus)
}

/// Starts the next tick: the clock moves to the start of the tick, and the
/// CPU to the play routine.
pub fn begin_tick<'a>(gbs: &Gbs, cpu: &mut Cpu<'a>, bus: &mut GbsAddrSpace<'a>)
    requires
        old(bus)@.wf(),
        old(bus)@.writer.tick < u64::MAX,
    ensures
        (Machine { regs: cpu_regs(*final(cpu)), bus: final(bus)@ }) == tick_begun(
            gbs@,
            Machine { regs: cpu_regs(*old(cpu)), bus: old(bus)@ },
        ),
        final(bus)@.wf(),
        final(bus)@.writer.cycle == 0,
{
    bus.logger.next_tick();
    cpu.enter(gbs.stack_ptr(), gbs.addr(AddressKind::Play));
}

/// Simulates song `song_id` of `gbs`, counted from 0, and gives its logbook.
///
/// The init routine runs in tick 0; then the play routine runs once a tick
/// until the sound hardware has been silent for `silence_timeout` cycles, the
/// watched address holds the watched value, or `timeout` cycles are used up,
/// which is a failure unless `allow_timeout` is set. Diagnostics less severe
/// than `max_level` are not recorded.
pub fn simulate_song(
    gbs: &Gbs,
    song_id: u8,
    max_level: DiagnosticLevel,
    timeout: u32,
    allow_timeout: bool,
    silence_timeout: u32,
    watch: Option<(u16, u8)>,
) -> (r: Result<Logbook, Error>)
    requires
        spec_cycles_per_tick(gbs@) is Some,
    ensures
        song_model(
            gbs@,
            song_id,
            max_level,
            Limits { timeout, allow_timeout, silence_timeout, watch },
        ) == match r {
            Ok(logbook) => Ok::<LogbookView, Error>((logbook.diagnostics@, logbook.io_log@)),
            Err(err) => Err::<LogbookView, Error>(err),
        },
        r matches Ok(logbook) ==> {
            &&& accesses_in_order(logbook.io_log@)
            &&& diagnostics_in_order(logbook.diagnostics@)
            &&& accesses_in_band(logbook.io_log@)
        },
{
    let cycles_per_tick: u16 = match cycles_per_tick(gbs) {
        Some(cycles) => cycles,
        None => {
            // Not reached by a caller that keeps the precondition.
            return Err(Error::Timeout);
        },
    };
    let ghost all = Limits { timeout, allow_timeout, silence_timeout, watch };
    let (mut cpu, mut bus) = load_song(gbs, song_id, max_level);
    match run_func(&mut cpu, &mut bus) {
        Ok(_) => {},
        Err(err) => {
            return Err(err);
        },
    }
    let ghost inited = Machine { regs: cpu_regs(cpu), bus: bus@ };
    let mut limits = Limits { timeout, allow_timeout, silence_timeout, watch };
    loop
        invariant
            spec_cycles_per_tick(gbs@) == Some(cycles_per_tick),
            cycles_per_tick >= 8,
            all == (Limits { timeout, allow_timeout, silence_timeout, watch }),
            call_model(init_machine(gbs@, song_id, max_level), le16(gbs@, 12), 0).0 == inited,
            call_model(init_machine(gbs@, song_id, max_level), le16(gbs@, 12), 0).1 is Ok,
            bus@.wf(),
            bus@.writer.tick + limits.timeout <= u32::MAX,
            play_model(gbs@, Machine { regs: cpu_regs(cpu), bus: bus@ }, cycles_per_tick, limits)
                == play_model(gbs@, inited, cycles_per_tick, all),
        decreases limits.timeout,
    {
        begin_tick(gbs, &mut cpu, &mut bus);
        let cycles: u16 = match run_func(&mut cpu, &mut bus) {
            Ok(cycles) => cycles,
            Err(err) => {
                return Err(err);
            },
        };
        proof {
            lemma_end_tick_frame(bus@, cycles, cycles_per_tick, limits);
        }
        match end_tick(&mut bus, cycles, cycles_per_tick, &limits) {
            TickEnd::Continue(left) => {
                limits.timeout = left;
            },
            TickEnd::Finished => {
                let logbook = bus.into_logger().into_logbook();
                return Ok(logbook);
            },
            TickEnd::Failed(err) => {
                return Err(err);
            },
        }
    }
}

/// A tick whose play routine returns with the sound hardware silent for as
/// long as the limit says ends the song in success.
pub proof fn lemma_silence_ends_play(
    file: Seq<u8>,
    m: Machine,
    cycles_per_tick: u16,
    limits: Limits,
)
    requires
        cycles_per_tick > 0,
        call_model(tick_begun(file, m), le16(file, 12), 0).1 is Ok,
        call_model(tick_begun(file, m), le16(file, 12), 0).0.bus.silence_timer
            >= limits.silence_timeout,
    ensures
        tick_model(file, m, cycles_per_tick, limits).1 == TickEnd::Finished,
        play_model(file, m, cycles_per_tick, limits).1 == Ok::<(), Error>(()),
{
}

/// Two simulations of the same song of the same file under the same limits
/// end alike: with the same logbook, or with the same failure.
pub proof fn lemma_simulation_repeats(
    file: Seq<u8>,
    song_id: u8,
    max_level: DiagnosticLevel,
    limits: Limits,
    first: Result<LogbookView, Error>,
    second: Result<LogbookView, Error>,
)
    requires
        first == song_model(file, song_id, max_level, limits),
        second == song_model(file, song_id, max_level, limits),
    ensures
        first == second,
{
}

} // verus!

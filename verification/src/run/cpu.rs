//! The CPU core, which is the crate `gb_cpu_sim`, and the one place where it
//! is called. What is said of it here is trusted, not proved.

use vstd::prelude::*;
use crate::run::addr_space::{apu_handles, BusState, GbsAddrSpace};
use gb_cpu_sim::cpu::{State, TickResult};
use gb_cpu_sim::memory::AddressSpace;
use std::cell::RefCell;

verus! {

/// The registers of the CPU.
#[derive(Debug, Clone, Copy, PartialEq, Eq, Structural)]
pub struct CpuRegs {
    pub a: u8,
    /// The flags, as the byte that `push af` would store.
    pub f: u8,
    pub b: u8,
    pub c: u8,
    pub d: u8,
    pub e: u8,
    pub h: u8,
    pub l: u8,
    pub pc: u16,
    pub sp: u16,
    /// Whether interrupts are enabled.
    pub ime: bool,
}

impl CpuRegs {
    /// The zero flag, bit 7 of `f`.
    pub fn flag_z(&self) -> (r: bool)
        ensures
            r == (self.f & 0x80 != 0),
    {
        self.f & 0x80 != 0
    }

    /// The subtraction flag, bit 6 of `f`.
    pub fn flag_n(&self) -> (r: bool)
        ensures
            r == (self.f & 0x40 != 0),
    {
        self.f & 0x40 != 0
    }

    /// The half-carry flag, bit 5 of `f`.
    pub fn flag_h(&self) -> (r: bool)
        ensures
            r == (self.f & 0x20 != 0),
    {
        self.f & 0x20 != 0
    }

    /// The carry flag, bit 4 of `f`.
    pub fn flag_c(&self) -> (r: bool)
        ensures
            r == (self.f & 0x10 != 0),
    {
        self.f & 0x10 != 0
    }
}

/// How one instruction ended.
#[derive(Debug, Clone, Copy, PartialEq, Eq, Structural)]
pub enum TickOutcome {
    /// Nothing noteworthy happened.
    Completed,
    /// The instruction was `ld b, b`, a breakpoint by convention.
    Break,
    /// The instruction was `ld d, d`, a debug message by convention.
    Debug,
    /// The instruction was `halt`.
    Halt,
    /// The instruction was `stop`.
    Stop,
    /// The opcode is not an instruction.
    InvalidOpcode,
}

/// One access of the CPU to the address space.
pub enum BusOp {
    Read(u16),
    Write(u16, u8),
}

impl BusState {
    /// The state after one access.
    pub open spec fn after(self, op: BusOp) -> BusState {
        match op {
            BusOp::Read(addr) => self.after_read(addr),
            BusOp::Write(addr, data) => self.after_write(addr, data),
        }
    }

    /// The state after the accesses `ops`, made in order.
    pub open spec fn apply(self, ops: Seq<BusOp>) -> BusState
        decreases ops.len(),
    {
        if ops.len() == 0 {
            self
        } else {
            self.after(ops[0]).apply(ops.subrange(1, ops.len() as int))
        }
    }
}

/// What one instruction does: the registers after it, how it ended, how many
/// cycles it took, and the accesses it made to the address space, in order.
pub struct TickEffect {
    pub regs: CpuRegs,
    pub outcome: TickOutcome,
    pub cycles: usize,
    pub ops: Seq<BusOp>,
}

/// What the instruction at `regs.pc` does when the CPU has the registers
/// `regs` and sees the address space `bus`: a name for what
/// `gb_cpu_sim::cpu::State::tick` computes. The core is deterministic, and it
/// touches the address space through reads and writes alone.
pub uninterp spec fn tick_effect(regs: CpuRegs, bus: BusState) -> TickEffect;

/// The registers that `cpu` holds now.
pub uninterp spec fn cpu_regs(cpu: Cpu) -> CpuRegs;

/// The standard library's `RefCell`. Nothing is known of what is inside.
#[verifier::external_type_specification]
#[verifier::external_body]
#[verifier::reject_recursive_types(T)]
pub struct ExRefCell<T: ?Sized>(RefCell<T>);

/// The CPU's side of the address space: `gb_cpu_sim` asks for reads through a
/// shared reference, and a read may have to raise a diagnostic, so the
/// address space lies in a `RefCell` while an instruction runs.
struct BusPort<'a> {
    cell: RefCell<GbsAddrSpace<'a>>,
}

impl<'a> AddressSpace for BusPort<'a> {
    /// Hands a read of the CPU on to `GbsAddrSpace::read`.
    #[verifier::external_body]
    fn read(&self, address: u16) -> u8 {
        self.cell.borrow_mut().read(address)
    }

    /// Hands a write of the CPU on to `GbsAddrSpace::write`.
    #[verifier::external_body]
    fn write(&mut self, address: u16, value: u8) {
        self.cell.get_mut().write(address, value)
    }
}

/// The CPU core: a `gb_cpu_sim::cpu::State`. Between instructions its port
/// holds an address space that is never looked at.
#[verifier::external_body]
pub struct Cpu<'a> {
    state: State<BusPort<'a>>,
}

/// The registers of a CPU that has just been made.
pub open spec fn reset_regs() -> CpuRegs {
    CpuRegs { a: 0, f: 0, b: 0, c: 0, d: 0, e: 0, h: 0, l: 0, pc: 0, sp: 0xE000, ime: true }
}

/// An opcode that is no instruction; the core cannot run it.
pub open spec fn spec_is_undefined(opcode: u8) -> bool {
    ||| opcode == 0xD3
    ||| opcode == 0xDB
    ||| opcode == 0xDD
    ||| opcode == 0xE3
    ||| opcode == 0xE4
    ||| 0xEB <= opcode <= 0xED
    ||| opcode == 0xF4
    ||| opcode == 0xFC
    ||| opcode == 0xFD
}

/// A `call`, conditional or not.
pub open spec fn spec_is_call(opcode: u8) -> bool {
    ||| opcode == 0xC4
    ||| opcode == 0xCC
    ||| opcode == 0xCD
    ||| opcode == 0xD4
    ||| opcode == 0xDC
}

/// The address after `addr`; the address space wraps around.
pub open spec fn spec_following(addr: u16) -> u16 {
    if addr == 0xFFFF {
        0
    } else {
        (addr + 1) as u16
    }
}

/// The address after `addr`; the address space wraps around.
#[verifier::when_used_as_spec(spec_following)]
pub fn following(addr: u16) -> (r: u16)
    ensures
        r == spec_following(addr),
{
    if addr == 0xFFFF {
        0
    } else {
        addr + 1
    }
}

/// The core can run the instruction at `pc`: its opcode is defined, it is no
/// call whose return address would lie past the end of the address space, and
/// no store of the stack pointer to the last address and the one past it.
pub open spec fn can_run(bus: BusState, pc: u16) -> bool {
    let opcode = bus.peek(pc);
    &&& !spec_is_undefined(opcode)
    &&& spec_is_call(opcode) ==> pc != 0xFFFD && pc != 0xFFFE
    &&& opcode == 0x08 ==> !(bus.peek(spec_following(pc)) == 0xFF && bus.peek(
        spec_following(spec_following(pc)),
    ) == 0xFF)
}

/// Whether the core can run the instruction at `pc`.
pub fn runnable(bus: &GbsAddrSpace, pc: u16) -> (r: bool)
    requires
        bus@.wf(),
    ensures
        r == can_run(bus@, pc),
{
    let opcode: u8 = bus.peek(pc);
    let undefined = opcode == 0xD3 || opcode == 0xDB || opcode == 0xDD || opcode == 0xE3
        || opcode == 0xE4 || (0xEB <= opcode && opcode <= 0xED) || opcode == 0xF4 || opcode
        == 0xFC || opcode == 0xFD;
    let call = opcode == 0xC4 || opcode == 0xCC || opcode == 0xCD || opcode == 0xD4 || opcode
        == 0xDC;
    if undefined {
        false
    } else if call && (pc == 0xFFFD || pc == 0xFFFE) {
        false
    } else if opcode == 0x08 {
        let low: u8 = bus.peek(following(pc));
        let high: u8 = bus.peek(following(following(pc)));
        !(low == 0xFF && high == 0xFF)
    } else {
        true
    }
}

impl<'a> Cpu<'a> {
    /// `State::new` around a port that holds `parked`. Trusted: a new CPU has
    /// all registers at zero, but for the stack pointer at 0xE000, and
    /// interrupts enabled.
    #[verifier::external_body]
    pub(crate) fn new(parked: GbsAddrSpace<'a>) -> (r: Self)
        ensures
            cpu_regs(r) == reset_regs(),
    {
        Cpu { state: State::new(BusPort { cell: RefCell::new(parked) }) }
    }

    /// Reads the public register fields of the `State`. Trusted: they are the
    /// registers that `cpu_regs` names.
    #[verifier::external_body]
    pub(crate) fn regs(&self) -> (r: CpuRegs)
        ensures
            r == cpu_regs(*self),
    {
        let s = &self.state;
        CpuRegs {
            a: s.a, f: s.f.value, b: s.b, c: s.c, d: s.d, e: s.e, h: s.h, l: s.l,
            pc: s.pc, sp: s.sp, ime: s.ime,
        }
    }

    /// The registers as they are now.
    pub fn registers(&self) -> (r: CpuRegs)
        ensures
            r == cpu_regs(*self),
    {
        self.regs()
    }

    /// Assigns the field `a` of the `State`. Trusted: only that register
    /// changes.
    #[verifier::external_body]
    pub(crate) fn set_a(&mut self, a: u8)
        ensures
            cpu_regs(*final(self)) == (CpuRegs { a, ..cpu_regs(*old(self)) }),
    {
        self.state.a = a;
    }

    /// Assigns the fields `sp` and `pc` of the `State`. Trusted: only those
    /// two registers change.
    #[verifier::external_body]
    pub(crate) fn enter(&mut self, sp: u16, pc: u16)
        ensures
            cpu_regs(*final(self)) == (CpuRegs { sp, pc, ..cpu_regs(*old(self)) }),
    {
        self.state.sp = sp;
        self.state.pc = pc;
    }

    /// `State::tick` on `bus`: runs one instruction, and takes the count of
    /// cycles out of the `State`. Trusted: the registers, the outcome and the
    /// cycles are those that `tick_effect` names, and the address space has
    /// seen the accesses that it names and nothing else. The core panics on
    /// the instructions that `can_run` excludes.
    #[verifier::external_body]
    pub(crate) fn tick(&mut self, bus: &mut GbsAddrSpace<'a>) -> (r: (TickOutcome, usize))
        requires
            old(bus)@.wf(),
            can_run(old(bus)@, cpu_regs(*old(self)).pc),
        ensures
            cpu_regs(*final(self)) == tick_effect(cpu_regs(*old(self)), old(bus)@).regs,
            final(bus)@ == old(bus)@.apply(tick_effect(cpu_regs(*old(self)), old(bus)@).ops),
            r.0 == tick_effect(cpu_regs(*old(self)), old(bus)@).outcome,
            r.1 == tick_effect(cpu_regs(*old(self)), old(bus)@).cycles,
    {
        std::mem::swap(self.state.address_space.cell.get_mut(), bus);
        let result = self.state.tick();
        std::mem::swap(self.state.address_space.cell.get_mut(), bus);
        let outcome = match result {
            TickResult::Ok => TickOutcome::Completed,
            TickResult::Break => TickOutcome::Break,
            TickResult::Debug => TickOutcome::Debug,
            TickResult::Halt => TickOutcome::Halt,
            TickResult::Stop => TickOutcome::Stop,
            TickResult::InvalidOpcode => TickOutcome::InvalidOpcode,
        };
        (outcome, std::mem::take(&mut self.state.cycles_elapsed))
    }
}

/// Accesses keep the address space well formed, and leave alone what only
/// the simulation changes: the ROM, the clock, the program counter on record
/// and the threshold for diagnostics. The logs only grow.
pub proof fn lemma_apply_frame(bus: BusState, ops: Seq<BusOp>)
    requires
        bus.wf(),
    ensures
        bus.apply(ops).wf(),
        bus.apply(ops).rom == bus.rom,
        bus.apply(ops).load_addr == bus.load_addr,
        bus.apply(ops).writer.tick == bus.writer.tick,
        bus.apply(ops).writer.cycle == bus.writer.cycle,
        bus.apply(ops).writer.pc == bus.writer.pc,
        bus.apply(ops).writer.max_level == bus.writer.max_level,
        bus.writer.io_log.is_prefix_of(bus.apply(ops).writer.io_log),
        bus.writer.diagnostics.is_prefix_of(bus.apply(ops).writer.diagnostics),
    decreases ops.len(),
{
    if ops.len() > 0 {
        let next = bus.after(ops[0]);
        match ops[0] {
            BusOp::Read(addr) => {
                crate::run::addr_space::lemma_read_keeps_wf(bus, addr);
            },
            BusOp::Write(addr, data) => {
                crate::run::addr_space::lemma_write_keeps_wf(bus, addr, data);
            },
        }
        lemma_apply_frame(next, ops.subrange(1, ops.len() as int));
    }
}

/// A write that the sound hardware answers.
pub open spec fn writes_to_apu(op: BusOp) -> bool {
    op matches BusOp::Write(addr, _) && apu_handles(addr)
}

/// Accesses among which no write goes to the sound hardware leave the
/// silence timer as it is, and record no write.
pub proof fn lemma_silent_accesses(bus: BusState, ops: Seq<BusOp>)
    requires
        forall|i: int| 0 <= i < ops.len() ==> !writes_to_apu(#[trigger] ops[i]),
    ensures
        bus.apply(ops).silence_timer == bus.silence_timer,
        bus.apply(ops).writer.io_log == bus.writer.io_log,
    decreases ops.len(),
{
    if ops.len() > 0 {
        let rest = ops.subrange(1, ops.len() as int);
        assert(!writes_to_apu(ops[0]));
        assert forall|i: int| 0 <= i < rest.len() implies !writes_to_apu(#[trigger] rest[i]) by {
            assert(rest[i] == ops[i + 1]);
        }
        lemma_silent_accesses(bus.after(ops[0]), rest);
    }
}

/// Accesses among which a write goes to the sound hardware leave the silence
/// timer at zero.
pub proof fn lemma_apu_write_breaks_silence(bus: BusState, ops: Seq<BusOp>, at: int)
    requires
        0 <= at < ops.len(),
        writes_to_apu(ops[at]),
    ensures
        bus.apply(ops).silence_timer == 0,
    decreases ops.len(),
{
    let rest = ops.subrange(1, ops.len() as int);
    if at == 0 {
        lemma_zero_stays(bus.after(ops[0]), rest);
    } else {
        assert(rest[at - 1] == ops[at]);
        lemma_apu_write_breaks_silence(bus.after(ops[0]), rest, at - 1);
    }
}

/// Accesses leave a silence timer at zero as it is.
proof fn lemma_zero_stays(bus: BusState, ops: Seq<BusOp>)
    requires
        bus.silence_timer == 0,
    ensures
        bus.apply(ops).silence_timer == 0,
    decreases ops.len(),
{
    if ops.len() > 0 {
        lemma_zero_stays(bus.after(ops[0]), ops.subrange(1, ops.len() as int));
    }
}

} // verus!

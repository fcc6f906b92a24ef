//! The memory map that a GBS driver sees, and the sound hardware in it.

use vstd::prelude::*;
use crate::diag::{Address, DiagnosticLevel};
use crate::gbs::{le16, AddressKind, Gbs, HEADER_LEN};
use crate::hw::hw_reg_at;
use crate::run::logbook::{fresh_writer, LogbookWriter, WriterState};
use crate::run::{DiagnosticKind, Logbook};

verus! {

/// First address of the sound hardware.
pub const APU_FIRST: u16 = 0xFF10;

/// Last address of the sound hardware: the end of wave RAM.
pub const APU_LAST: u16 = 0xFF3F;

/// First address of wave RAM.
pub const WAVE_FIRST: u16 = 0xFF30;

/// Last of the sound registers, NR52.
pub const REGS_LAST: u16 = 0xFF26;

/// The two addresses among the sound registers where no register is.
pub open spec fn spec_is_hole(addr: u16) -> bool {
    addr == 0xFF15 || addr == 0xFF1F
}

/// Whether `addr` is one of the two holes among the registers.
#[verifier::when_used_as_spec(spec_is_hole)]
pub fn is_hole(addr: u16) -> (r: bool)
    ensures
        r == spec_is_hole(addr),
{
    addr == 0xFF15 || addr == 0xFF1F
}

/// One of the 21 sound registers, NR10 to NR52.
pub open spec fn is_sound_reg(addr: u16) -> bool {
    APU_FIRST <= addr <= REGS_LAST && !spec_is_hole(addr)
}

/// One of the 16 bytes of wave RAM.
pub open spec fn is_wave_ram(addr: u16) -> bool {
    WAVE_FIRST <= addr <= APU_LAST
}

/// An address that the sound hardware answers at: a register, a hole between
/// the registers, or wave RAM.
pub open spec fn apu_handles(addr: u16) -> bool {
    APU_FIRST <= addr <= REGS_LAST || is_wave_ram(addr)
}

/// The bits that read as 1 whatever was written.
pub open spec fn spec_read_mask(addr: u16) -> u8 {
    if addr == 0xFF10 {
        0x80
    } else if addr == 0xFF11 || addr == 0xFF16 {
        0x3F
    } else if addr == 0xFF13 || addr == 0xFF18 || addr == 0xFF1D || addr == 0xFF22 {
        0xFF
    } else if addr == 0xFF14 || addr == 0xFF19 || addr == 0xFF1E || addr == 0xFF23 {
        0xBF
    } else if addr == 0xFF1A {
        0x7F
    } else if addr == 0xFF20 {
        0xC0
    } else if addr == 0xFF26 {
        0x70
    } else {
        0x00
    }
}

/// The bits that read as 1 whatever was written.
#[verifier::when_used_as_spec(spec_read_mask)]
pub fn read_mask(addr: u16) -> (r: u8)
    ensures
        r == spec_read_mask(addr),
{
    if addr == 0xFF10 {
        0x80
    } else if addr == 0xFF11 || addr == 0xFF16 {
        0x3F
    } else if addr == 0xFF13 || addr == 0xFF18 || addr == 0xFF1D || addr == 0xFF22 {
        0xFF
    } else if addr == 0xFF14 || addr == 0xFF19 || addr == 0xFF1E || addr == 0xFF23 {
        0xBF
    } else if addr == 0xFF1A {
        0x7F
    } else if addr == 0xFF20 {
        0xC0
    } else if addr == 0xFF26 {
        0x70
    } else {
        0x00
    }
}

/// What the sound hardware holds: the bytes last written to the registers, by
/// their distance from NR10, and wave RAM.
pub struct ApuState {
    pub regs: Seq<u8>,
    pub wave_ram: Seq<u8>,
}

impl ApuState {
    /// There is a byte for every register and for every byte of wave RAM.
    pub open spec fn wf(self) -> bool {
        self.regs.len() == 0x17 && self.wave_ram.len() == 0x10
    }

    /// The byte last written to the register or the byte of wave RAM at
    /// `addr`.
    pub open spec fn stored(self, addr: u16) -> u8
        recommends
            is_sound_reg(addr) || is_wave_ram(addr),
    {
        if is_wave_ram(addr) {
            self.wave_ram[addr - WAVE_FIRST]
        } else {
            self.regs[addr - APU_FIRST]
        }
    }

    /// What a read from `addr` gives: the stored byte with the masked bits
    /// set at a register, all ones at a hole, the stored byte in wave RAM,
    /// and `None` where the sound hardware does not answer.
    pub open spec fn read_value(self, addr: u16) -> Option<u8> {
        if spec_is_hole(addr) {
            Some(0xFFu8)
        } else if is_sound_reg(addr) {
            Some(self.stored(addr) | spec_read_mask(addr))
        } else if is_wave_ram(addr) {
            Some(self.stored(addr))
        } else {
            None
        }
    }

    /// The state once `data` has been written to `addr`: the byte is stored
    /// as it is at a register and in wave RAM, and nothing changes elsewhere.
    pub open spec fn written(self, addr: u16, data: u8) -> ApuState {
        if is_sound_reg(addr) {
            ApuState { regs: self.regs.update(addr - APU_FIRST, data), ..self }
        } else if is_wave_ram(addr) {
            ApuState { wave_ram: self.wave_ram.update(addr - WAVE_FIRST, data), ..self }
        } else {
            self
        }
    }
}

/// Sound hardware with every register and all of wave RAM at zero.
pub open spec fn zeroed_apu() -> ApuState {
    ApuState { regs: Seq::new(0x17, |i: int| 0u8), wave_ram: Seq::new(0x10, |i: int| 0u8) }
}

/// The sound hardware, as far as a driver can see it: what was written can be
/// read back, less the bits that the hardware hides.
#[derive(Debug)]
pub struct Apu {
    regs: [u8; 0x17],
    wave_ram: [u8; 0x10],
}

impl View for Apu {
    type V = ApuState;

    closed spec fn view(&self) -> ApuState {
        ApuState { regs: self.regs@, wave_ram: self.wave_ram@ }
    }
}

impl Apu {
    /// Sound hardware with every register and all of wave RAM at zero.
    pub fn new() -> (r: Self)
        ensures
            r@ == zeroed_apu(),
    {
        let apu = Apu { regs: [0u8; 0x17], wave_ram: [0u8; 0x10] };
        assert(apu.regs@ =~= zeroed_apu().regs);
        assert(apu.wave_ram@ =~= zeroed_apu().wave_ram);
        apu
    }

    /// What a read from `address` gives, without a trace of the read.
    pub fn peek(&self, address: u16) -> (r: Option<u8>)
        ensures
            r == self@.read_value(address),
            self@.wf(),
    {
        if is_hole(address) {
            return Some(0xFF);
        }
        match hw_reg_at(address) {
            Some(reg) => {
                if APU_FIRST <= reg && reg <= REGS_LAST {
                    let at: usize = (reg - APU_FIRST) as usize;
                    Some(self.regs[at] | read_mask(reg))
                } else if WAVE_FIRST <= reg && reg <= APU_LAST {
                    let at: usize = (reg - WAVE_FIRST) as usize;
                    Some(self.wave_ram[at])
                } else {
                    None
                }
            },
            None => None,
        }
    }

    /// Reads from `address`; a read from a hole is noted in the logbook.
    /// `None` where the sound hardware does not answer.
    pub fn read(&self, logger: &mut LogbookWriter, address: u16) -> (r: Option<u8>)
        ensures
            r == self@.read_value(address),
            final(logger)@ == if spec_is_hole(address) {
                old(logger)@.diagnosed(
                    DiagnosticLevel::Note,
                    DiagnosticKind::UnsupportedRead(Address(old(logger).rom_bank, address)),
                )
            } else {
                old(logger)@
            },
    {
        if is_hole(address) {
            let here = Address(logger.rom_bank, address);
            logger.diagnose(DiagnosticLevel::Note, DiagnosticKind::UnsupportedRead(here));
        }
        self.peek(address)
    }

    /// Writes `data` to `address`. Where the sound hardware answers, the
    /// write is recorded in the logbook, the byte is stored (a hole stores
    /// nothing, and the write is noted), and the silence timer starts again.
    /// Elsewhere nothing happens and the result is `None`.
    pub fn write(
        &mut self,
        logger: &mut LogbookWriter,
        silence_timer: &mut u32,
        address: u16,
        data: u8,
    ) -> (r: Option<()>)
        ensures
            r is Some <==> apu_handles(address),
            final(self)@.wf(),
            final(self)@ == old(self)@.written(address, data),
            final(logger)@ == apu_write_record(old(logger)@, address, data),
            *final(silence_timer) == if apu_handles(address) {
                0
            } else {
                *old(silence_timer)
            },
    {
        assert(self@.wf()) by {
            vstd::array::array_len_matches_n(&self.regs);
            vstd::array::array_len_matches_n(&self.wave_ram);
        }
        if is_hole(address) {
            logger.log(address, data);
            let here = Address(logger.rom_bank, address);
            logger.diagnose(DiagnosticLevel::Note, DiagnosticKind::UnsupportedWrite(here, data));
        } else {
            match hw_reg_at(address) {
                Some(reg) => {
                    if APU_FIRST <= reg && reg <= REGS_LAST {
                        logger.log(address, data);
                        let at: usize = (reg - APU_FIRST) as usize;
                        self.regs[at] = data;
                    } else if WAVE_FIRST <= reg && reg <= APU_LAST {
                        logger.log(address, data);
                        let at: usize = (reg - WAVE_FIRST) as usize;
                        self.wave_ram[at] = data;
                    } else {
                        return None;
                    }
                },
                None => {
                    return None;
                },
            }
        }
        *silence_timer = 0;
        Some(())
    }
}

/// What a write to the sound hardware leaves in the logbook: the write
/// itself where the hardware answers, and a note besides at a hole.
pub open spec fn apu_write_record(w: WriterState, addr: u16, data: u8) -> WriterState {
    if spec_is_hole(addr) {
        w.logged(addr, data).diagnosed(
            DiagnosticLevel::Note,
            DiagnosticKind::UnsupportedWrite(Address(w.rom_bank, addr), data),
        )
    } else if apu_handles(addr) {
        w.logged(addr, data)
    } else {
        w
    }
}

/// A register reads back as what was last written to it, but for the bits
/// that its mask forces to 1; wave RAM reads back unchanged.
pub proof fn lemma_read_back(apu: ApuState, addr: u16, data: u8)
    requires
        apu.wf(),
        is_sound_reg(addr) || is_wave_ram(addr),
    ensures
        apu.written(addr, data).read_value(addr) is Some,
        apu.written(addr, data).read_value(addr).unwrap() & !spec_read_mask(addr) == data
            & !spec_read_mask(addr),
        apu.written(addr, data).read_value(addr).unwrap() & spec_read_mask(addr)
            == spec_read_mask(addr),
        is_wave_ram(addr) ==> apu.written(addr, data).read_value(addr) == Some(data),
{
    let mask = spec_read_mask(addr);
    assert((data | mask) & !mask == data & !mask) by (bit_vector);
    assert((data | mask) & mask == mask) by (bit_vector);
    assert(data & !0u8 == data) by (bit_vector);
    assert(data & 0u8 == 0u8) by (bit_vector);
    assert(data | 0u8 == data) by (bit_vector);
}

/// Through the address space too, a sound register reads back as what was
/// last written to it, but for the bits that its mask forces to 1, and wave
/// RAM reads back unchanged.
pub proof fn lemma_bus_read_back(bus: BusState, addr: u16, data: u8)
    requires
        bus.wf(),
        is_sound_reg(addr) || is_wave_ram(addr),
    ensures
        bus.after_write(addr, data).peek(addr) & !spec_read_mask(addr) == data & !spec_read_mask(
            addr,
        ),
        bus.after_write(addr, data).peek(addr) & spec_read_mask(addr) == spec_read_mask(addr),
        is_wave_ram(addr) ==> bus.after_write(addr, data).peek(addr) == data,
        bus.after_write(addr, data).after_read(addr) == bus.after_write(addr, data),
{
    lemma_read_back(bus.apu, addr, data);
}

/// A write to one register or byte of wave RAM changes what no other
/// address reads as.
pub proof fn lemma_write_leaves_others(apu: ApuState, addr: u16, data: u8, other: u16)
    requires
        apu.wf(),
        other != addr,
    ensures
        apu.written(addr, data).wf(),
        apu.written(addr, data).read_value(other) == apu.read_value(other),
{
}

/// A diagnostic that is about to be raised: its level and what it says.
pub type Finding = (DiagnosticLevel, DiagnosticKind);

/// What the address space holds: the ROM image and where it is loaded, the
/// three RAMs, the sound hardware, the logbook writer, and the cycles since
/// the last write to the sound hardware.
pub struct BusState {
    pub rom: Seq<u8>,
    pub load_addr: u16,
    pub sram: Seq<u8>,
    pub wram: Seq<u8>,
    pub hram: Seq<u8>,
    pub apu: ApuState,
    pub writer: WriterState,
    pub silence_timer: u32,
}

/// The warning that nothing can be read at `addr`.
pub open spec fn unsupported_read(bank: u8, addr: u16) -> Option<Finding> {
    Some((DiagnosticLevel::Warning, DiagnosticKind::UnsupportedRead(Address(bank, addr))))
}

/// The warning that nothing can be written at `addr`.
pub open spec fn unsupported_write(bank: u8, addr: u16, data: u8) -> Option<Finding> {
    Some((DiagnosticLevel::Warning, DiagnosticKind::UnsupportedWrite(Address(bank, addr), data)))
}

/// Every write in `log` went to the sound hardware.
pub open spec fn accesses_in_band(log: Seq<crate::run::IoAccess>) -> bool {
    forall|i: int| 0 <= i < log.len() ==> APU_FIRST <= (#[trigger] log[i]).addr <= APU_LAST
}

impl BusState {
    /// The RAMs have their sizes, the logs are in order, and every recorded
    /// write went to the sound hardware.
    pub open spec fn wf(self) -> bool {
        &&& self.sram.len() == 0x2000
        &&& self.wram.len() == 0x2000
        &&& self.hram.len() == 0x7F
        &&& self.apu.wf()
        &&& self.writer.wf()
        &&& accesses_in_band(self.writer.io_log)
    }

    /// Where in the ROM image the address `addr` of the fixed window, 0x0000
    /// to 0x3FFF, or of the banked window, 0x4000 to 0x7FFF, lies.
    pub open spec fn rom_offset(self, addr: u16) -> int
        recommends
            addr < 0x8000,
    {
        if addr < 0x4000 {
            addr - self.load_addr
        } else {
            (addr - 0x4000) + self.writer.rom_bank * 0x4000 - self.load_addr
        }
    }

    /// What a read from `addr` gives, and the diagnostic that it raises.
    pub open spec fn lookup(self, addr: u16) -> (u8, Option<Finding>) {
        let bank = self.writer.rom_bank;
        if addr < 0x8000 {
            let ofs = self.rom_offset(addr);
            if 0 <= ofs < self.rom.len() {
                (self.rom[ofs], None)
            } else if addr < 0x4000 {
                (0xFF, unsupported_read(bank, addr))
            } else {
                (0x00, unsupported_read(bank, addr))
            }
        } else if addr < 0xA000 {
            (0xFF, unsupported_read(bank, addr))
        } else if addr < 0xC000 {
            (self.sram[addr - 0xA000], None)
        } else if addr < 0xE000 {
            (self.wram[addr - 0xC000], None)
        } else if addr < 0xFE00 {
            (
                self.wram[addr - 0xE000],
                Some((DiagnosticLevel::Note, DiagnosticKind::EchoRamRead(Address(bank, addr)))),
            )
        } else if addr < 0xFF00 {
            (0xFF, unsupported_read(bank, addr))
        } else if addr < 0xFF80 {
            match self.apu.read_value(addr) {
                Some(value) => (
                    value,
                    if spec_is_hole(addr) {
                        Some(
                            (
                                DiagnosticLevel::Note,
                                DiagnosticKind::UnsupportedRead(Address(bank, addr)),
                            ),
                        )
                    } else {
                        None
                    },
                ),
                None => (0xFF, unsupported_read(bank, addr)),
            }
        } else if addr < 0xFFFF {
            (self.hram[addr - 0xFF80], None)
        } else {
            (0xFF, unsupported_read(bank, addr))
        }
    }

    /// The byte that a read from `addr` gives.
    pub open spec fn peek(self, addr: u16) -> u8 {
        self.lookup(addr).0
    }

    /// The state once the finding, if there is one, has been raised.
    pub open spec fn noted(self, finding: Option<Finding>) -> BusState {
        match finding {
            Some((level, kind)) => BusState { writer: self.writer.diagnosed(level, kind), ..self },
            None => self,
        }
    }

    /// The state after a read from `addr`: only the logbook can have grown.
    pub open spec fn after_read(self, addr: u16) -> BusState {
        self.noted(self.lookup(addr).1)
    }

    /// The state after a write of `data` to `addr`.
    pub open spec fn after_write(self, addr: u16, data: u8) -> BusState {
        let bank = self.writer.rom_bank;
        if 0x2000 <= addr < 0x4000 {
            let latched = BusState {
                writer: WriterState { rom_bank: data, ..self.writer },
                ..self
            };
            if data == 0 {
                latched.noted(unsupported_write(data, addr, data))
            } else {
                latched
            }
        } else if addr < 0xA000 {
            self.noted(unsupported_write(bank, addr, data))
        } else if addr < 0xC000 {
            BusState { sram: self.sram.update(addr - 0xA000, data), ..self }
        } else if addr < 0xE000 {
            BusState { wram: self.wram.update(addr - 0xC000, data), ..self }
        } else if addr < 0xFE00 {
            BusState { wram: self.wram.update(addr - 0xE000, data), ..self }.noted(
                Some((DiagnosticLevel::Note, DiagnosticKind::EchoRamWrite(Address(bank, addr), data))),
            )
        } else if addr < 0xFF00 {
            self.noted(unsupported_write(bank, addr, data))
        } else if addr < 0xFF80 {
            if apu_handles(addr) {
                BusState {
                    apu: self.apu.written(addr, data),
                    writer: apu_write_record(self.writer, addr, data),
                    silence_timer: 0,
                    ..self
                }
            } else {
                self.noted(unsupported_write(bank, addr, data))
            }
        } else if addr < 0xFFFF {
            BusState { hram: self.hram.update(addr - 0xFF80, data), ..self }
        } else {
            self.noted(unsupported_write(bank, addr, data))
        }
    }
}

/// The address space of the file `file` before anything has run: the ROM image
/// behind the header, all RAM and the sound hardware at zero, the silence
/// timer at zero, and `writer` for the logbook.
pub open spec fn fresh_bus(file: Seq<u8>, writer: WriterState) -> BusState {
    BusState {
        rom: file.subrange(HEADER_LEN as int, file.len() as int),
        load_addr: le16(file, 6),
        sram: Seq::new(0x2000, |i: int| 0u8),
        wram: Seq::new(0x2000, |i: int| 0u8),
        hram: Seq::new(0x7F, |i: int| 0u8),
        apu: zeroed_apu(),
        writer,
        silence_timer: 0,
    }
}

/// An address space with nothing in it: no ROM, no RAM, the sound hardware
/// at zero, and a logbook writer that has written nothing.
pub open spec fn parked_bus(max_level: DiagnosticLevel) -> BusState {
    BusState {
        rom: Seq::empty(),
        load_addr: 0,
        sram: Seq::empty(),
        wram: Seq::empty(),
        hram: Seq::empty(),
        apu: zeroed_apu(),
        writer: fresh_writer(max_level),
        silence_timer: 0,
    }
}

/// The address space of a GBS driver: ROM in two windows, three RAMs, the
/// sound hardware, and nothing else.
#[derive(Debug)]
pub struct GbsAddrSpace<'a> {
    pub rom: &'a [u8],
    pub load_addr: u16,
    pub sram: Vec<u8>,
    pub wram: Vec<u8>,
    pub hram: Vec<u8>,
    pub apu: Apu,
    /// The logbook writer; it also holds the number of the ROM bank that is
    /// mapped at 0x4000.
    pub logger: LogbookWriter,
    /// Cycles since the sound hardware was last written to.
    pub silence_timer: u32,
}

impl<'a> View for GbsAddrSpace<'a> {
    type V = BusState;

    open spec fn view(&self) -> BusState {
        BusState {
            rom: self.rom@,
            load_addr: self.load_addr,
            sram: self.sram@,
            wram: self.wram@,
            hram: self.hram@,
            apu: self.apu@,
            writer: self.logger@,
            silence_timer: self.silence_timer,
        }
    }
}

impl<'a> GbsAddrSpace<'a> {
    /// The address space of `gbs` with all RAM and the sound hardware at
    /// zero, the silence timer at zero, and `logger` to write the logbook.
    pub fn new(gbs: &'a Gbs<'a>, logger: LogbookWriter) -> (r: Self)
        ensures
            r@ == fresh_bus(gbs@, logger@),
    {
        let rom = gbs.rom();
        let load_addr: u16 = gbs.addr(AddressKind::Load);
        let sram = zeroed(0x2000);
        let wram = zeroed(0x2000);
        let hram = zeroed(0x7F);
        GbsAddrSpace {
            rom,
            load_addr,
            sram,
            wram,
            hram,
            apu: Apu::new(),
            logger,
            silence_timer: 0,
        }
    }

    /// An address space with nothing in it: not one to run a song on, but
    /// one for a CPU to hold while it runs no instruction.
    pub fn parked(max_level: DiagnosticLevel) -> (r: Self)
        ensures
            r@ == parked_bus(max_level),
    {
        let rom: &'static [u8] = &[];
        assert(rom@ =~= Seq::<u8>::empty());
        GbsAddrSpace {
            rom,
            load_addr: 0,
            sram: Vec::new(),
            wram: Vec::new(),
            hram: Vec::new(),
            apu: Apu::new(),
            logger: LogbookWriter::new(Logbook::new(), max_level),
            silence_timer: 0,
        }
    }

    /// Raises a diagnostic at the current time and place.
    pub fn diagnose(&mut self, level: DiagnosticLevel, kind: DiagnosticKind)
        ensures
            final(self)@ == old(self)@.noted(Some((level, kind))),
    {
        self.logger.diagnose(level, kind);
    }

    /// `addr` together with the ROM bank that is mapped now.
    pub fn cur_bank_addr(&self, addr: u16) -> (r: Address)
        ensures
            r == Address(self@.writer.rom_bank, addr),
    {
        Address(self.logger.rom_bank, addr)
    }

    /// What a read from `address` gives and the diagnostic that it raises,
    /// without a trace of the read.
    pub fn lookup(&self, address: u16) -> (r: (u8, Option<Finding>))
        requires
            self@.wf(),
        ensures
            r == self@.lookup(address),
    {
        let bank: u8 = self.logger.rom_bank;
        let warning: Option<Finding> = Some(
            (DiagnosticLevel::Warning, DiagnosticKind::UnsupportedRead(Address(bank, address))),
        );
        if address < 0x4000 {
            // Outside the loaded image the bus reads as 0xFF.
            if address >= self.load_addr && ((address - self.load_addr) as usize)
                < self.rom.len() {
                (self.rom[(address - self.load_addr) as usize], None)
            } else {
                (0xFF, warning)
            }
        } else if address < 0x8000 {
            let banked: usize = (address - 0x4000) as usize + (bank as usize) * 0x4000;
            if banked >= self.load_addr as usize && banked - (self.load_addr as usize)
                < self.rom.len() {
                (self.rom[banked - (self.load_addr as usize)], None)
            } else {
                (0x00, warning)
            }
        } else if address < 0xA000 {
            (0xFF, warning)
        } else if address < 0xC000 {
            (self.sram[(address - 0xA000) as usize], None)
        } else if address < 0xE000 {
            (self.wram[(address - 0xC000) as usize], None)
        } else if address < 0xFE00 {
            (
                self.wram[(address - 0xE000) as usize],
                Some(
                    (DiagnosticLevel::Note, DiagnosticKind::EchoRamRead(Address(bank, address))),
                ),
            )
        } else if address < 0xFF00 {
            (0xFF, warning)
        } else if address < 0xFF80 {
            match self.apu.peek(address) {
                Some(value) => {
                    if is_hole(address) {
                        (
                            value,
                            Some(
                                (
                                    DiagnosticLevel::Note,
                                    DiagnosticKind::UnsupportedRead(Address(bank, address)),
                                ),
                            ),
                        )
                    } else {
                        (value, None)
                    }
                },
                None => (0xFF, warning),
            }
        } else if address < 0xFFFF {
            (self.hram[(address - 0xFF80) as usize], None)
        } else {
            (0xFF, warning)
        }
    }

    /// The byte that a read from `address` gives, without a trace of the
    /// read.
    pub fn peek(&self, address: u16) -> (r: u8)
        requires
            self@.wf(),
        ensures
            r == self@.peek(address),
    {
        self.lookup(address).0
    }

    /// Reads from `address`, and raises the diagnostic that the read calls
    /// for.
    pub fn read(&mut self, address: u16) -> (r: u8)
        requires
            old(self)@.wf(),
        ensures
            r == old(self)@.peek(address),
            final(self)@ == old(self)@.after_read(address),
            final(self)@.wf(),
    {
        proof {
            lemma_read_keeps_wf(self@, address);
        }
        if 0xFF00 <= address && address < 0xFF80 {
            match self.apu.read(&mut self.logger, address) {
                Some(value) => value,
                None => {
                    let here = self.cur_bank_addr(address);
                    self.diagnose(DiagnosticLevel::Warning, DiagnosticKind::UnsupportedRead(here));
                    0xFF
                },
            }
        } else {
            let (value, finding) = self.lookup(address);
            match finding {
                Some((level, kind)) => {
                    self.diagnose(level, kind);
                },
                None => {},
            }
            value
        }
    }

    /// Writes `data` to `address`.
    pub fn write(&mut self, address: u16, data: u8)
        requires
            old(self)@.wf(),
        ensures
            final(self)@ == old(self)@.after_write(address, data),
            final(self)@.wf(),
    {
        proof {
            lemma_write_keeps_wf(self@, address, data);
        }
        if 0x2000 <= address && address < 0x4000 {
            self.logger.rom_bank = data;
            if data == 0 {
                let here = self.cur_bank_addr(address);
                self.diagnose(
                    DiagnosticLevel::Warning,
                    DiagnosticKind::UnsupportedWrite(here, data),
                );
            }
        } else if address < 0xA000 {
            let here = self.cur_bank_addr(address);
            self.diagnose(DiagnosticLevel::Warning, DiagnosticKind::UnsupportedWrite(here, data));
        } else if address < 0xC000 {
            self.sram[(address - 0xA000) as usize] = data;
        } else if address < 0xE000 {
            self.wram[(address - 0xC000) as usize] = data;
        } else if address < 0xFE00 {
            let here = self.cur_bank_addr(address);
            self.diagnose(DiagnosticLevel::Note, DiagnosticKind::EchoRamWrite(here, data));
            self.wram[(address - 0xE000) as usize] = data;
        } else if address < 0xFF00 {
            let here = self.cur_bank_addr(address);
            self.diagnose(DiagnosticLevel::Warning, DiagnosticKind::UnsupportedWrite(here, data));
        } else if address < 0xFF80 {
            match self.apu.write(&mut self.logger, &mut self.silence_timer, address, data) {
                Some(()) => {},
                None => {
                    let here = self.cur_bank_addr(address);
                    self.diagnose(
                        DiagnosticLevel::Warning,
                        DiagnosticKind::UnsupportedWrite(here, data),
                    );
                },
            }
        } else if address < 0xFFFF {
            self.hram[(address - 0xFF80) as usize] = data;
        } else {
            let here = self.cur_bank_addr(address);
            self.diagnose(DiagnosticLevel::Warning, DiagnosticKind::UnsupportedWrite(here, data));
        }
    }

    /// Ends the simulation and gives the logbook writer back.
    pub fn into_logger(self) -> (r: LogbookWriter)
        ensures
            r@ == self@.writer,
    {
        self.logger
    }
}

/// `len` bytes of zero.
fn zeroed(len: usize) -> (r: Vec<u8>)
    ensures
        r@ == Seq::new(len as nat, |i: int| 0u8),
{
    let mut bytes: Vec<u8> = Vec::new();
    while bytes.len() < len
        invariant
            bytes@.len() <= len,
            forall|i: int| 0 <= i < bytes@.len() ==> bytes@[i] == 0,
        decreases len - bytes@.len(),
    {
        bytes.push(0);
    }
    bytes
}

/// A read keeps the address space well formed.
pub proof fn lemma_read_keeps_wf(bus: BusState, addr: u16)
    requires
        bus.wf(),
    ensures
        bus.after_read(addr).wf(),
{
}

/// A write keeps the address space well formed: the RAMs keep their sizes,
/// the logs stay in order, and what is recorded went to the sound hardware.
pub proof fn lemma_write_keeps_wf(bus: BusState, addr: u16, data: u8)
    requires
        bus.wf(),
    ensures
        bus.after_write(addr, data).wf(),
{
}

} // verus!

use gbsdiff::gbs::Gbs;
use gbsdiff::run::addr_space::{is_hole, read_mask, Apu, GbsAddrSpace};
use gbsdiff::run::{DiagnosticKind, IoAccess, Logbook, LogbookWriter};
use gbsdiff::{Address, Diagnostic, DiagnosticLevel, Timestamp};

fn file(load: u16, rom: &[u8]) -> Vec<u8> {
    let mut data = vec![0u8; 0x70];
    data[0] = b'G';
    data[1] = b'B';
    data[2] = b'S';
    data[3] = 1;
    data[4] = 1;
    data[6..8].copy_from_slice(&load.to_le_bytes());
    data[8..10].copy_from_slice(&load.to_le_bytes());
    data[10..12].copy_from_slice(&load.to_le_bytes());
    data[12..14].copy_from_slice(&0xDFF0u16.to_le_bytes());
    data.extend_from_slice(rom);
    data
}

fn writer(max_level: DiagnosticLevel) -> LogbookWriter {
    LogbookWriter::new(Logbook::new(), max_level)
}

fn warning(bank: u8, pc: u16, kind: DiagnosticKind) -> Diagnostic<DiagnosticKind> {
    Diagnostic {
        when: Timestamp { tick: 0, cycle: 0 },
        pc: Address(bank, pc),
        level: DiagnosticLevel::Warning,
        kind,
    }
}

fn note(bank: u8, pc: u16, kind: DiagnosticKind) -> Diagnostic<DiagnosticKind> {
    Diagnostic {
        when: Timestamp { tick: 0, cycle: 0 },
        pc: Address(bank, pc),
        level: DiagnosticLevel::Note,
        kind,
    }
}

#[test]
fn rom_is_read_at_the_load_address() {
    let data = file(0x0400, &[0x11, 0x22, 0x33]);
    let gbs = Gbs::new(&data).unwrap();
    let mut bus = GbsAddrSpace::new(&gbs, writer(DiagnosticLevel::Note));
    assert_eq!(bus.read(0x0400), 0x11);
    assert_eq!(bus.read(0x0402), 0x33);
    assert!(bus.logger.logbook.diagnostics.is_empty());
    // Below the load address and past the image the bus reads as 0xFF.
    assert_eq!(bus.read(0x03FF), 0xFF);
    assert_eq!(bus.read(0x0403), 0xFF);
    assert_eq!(
        bus.logger.logbook.diagnostics,
        vec![
            warning(1, 0, DiagnosticKind::UnsupportedRead(Address(1, 0x03FF))),
            warning(1, 0, DiagnosticKind::UnsupportedRead(Address(1, 0x0403))),
        ]
    );
    assert!(bus.logger.logbook.io_log.is_empty());
}

#[test]
fn banked_rom_follows_the_bank_register() {
    let mut rom = vec![0u8; 0xC000];
    rom[0x4000 - 0x0400] = 0xA1; // bank 1, offset 0
    rom[0x8000 - 0x0400 + 5] = 0xB2; // bank 2, offset 5
    let data = file(0x0400, &rom);
    let gbs = Gbs::new(&data).unwrap();
    let mut bus = GbsAddrSpace::new(&gbs, writer(DiagnosticLevel::Note));
    assert_eq!(bus.logger.rom_bank, 1);
    assert_eq!(bus.read(0x4000), 0xA1);
    bus.write(0x2000, 2);
    assert_eq!(bus.logger.rom_bank, 2);
    assert_eq!(bus.read(0x4005), 0xB2);
    bus.write(0x3FFF, 1);
    assert_eq!(bus.read(0x4000), 0xA1);
    assert!(bus.logger.logbook.diagnostics.is_empty());
    // Past the image the banked window reads as 0x00.
    bus.write(0x2100, 0xFF);
    assert_eq!(bus.read(0x4000), 0x00);
    assert_eq!(
        bus.logger.logbook.diagnostics,
        vec![warning(0xFF, 0, DiagnosticKind::UnsupportedRead(Address(0xFF, 0x4000)))]
    );
}

#[test]
fn bank_zero_reaches_below_the_image() {
    let data = file(0x0400, &[0x11; 0x4000]);
    let gbs = Gbs::new(&data).unwrap();
    let mut bus = GbsAddrSpace::new(&gbs, writer(DiagnosticLevel::Note));
    bus.write(0x2000, 0);
    assert_eq!(bus.logger.rom_bank, 0);
    // Bank 0 in the banked window: 0x4000 maps to offset 0, below the load address.
    assert_eq!(bus.read(0x4000), 0x00);
    assert_eq!(bus.read(0x4400), 0x11);
    assert_eq!(
        bus.logger.logbook.diagnostics,
        vec![
            warning(0, 0, DiagnosticKind::UnsupportedWrite(Address(0, 0x2000), 0)),
            warning(0, 0, DiagnosticKind::UnsupportedRead(Address(0, 0x4000))),
        ]
    );
}

#[test]
fn rom_cannot_be_written() {
    let data = file(0x0400, &[0x11, 0x22]);
    let gbs = Gbs::new(&data).unwrap();
    let mut bus = GbsAddrSpace::new(&gbs, writer(DiagnosticLevel::Note));
    bus.write(0x0400, 0x55);
    bus.write(0x1FFF, 0x56);
    bus.write(0x4000, 0x57);
    bus.write(0x7FFF, 0x58);
    assert_eq!(bus.read(0x0400), 0x11);
    assert_eq!(bus.logger.rom_bank, 1);
    assert_eq!(
        bus.logger.logbook.diagnostics,
        vec![
            warning(1, 0, DiagnosticKind::UnsupportedWrite(Address(1, 0x0400), 0x55)),
            warning(1, 0, DiagnosticKind::UnsupportedWrite(Address(1, 0x1FFF), 0x56)),
            warning(1, 0, DiagnosticKind::UnsupportedWrite(Address(1, 0x4000), 0x57)),
            warning(1, 0, DiagnosticKind::UnsupportedWrite(Address(1, 0x7FFF), 0x58)),
        ]
    );
}

#[test]
fn the_three_rams_hold_what_is_written() {
    let data = file(0x0400, &[]);
    let gbs = Gbs::new(&data).unwrap();
    let mut bus = GbsAddrSpace::new(&gbs, writer(DiagnosticLevel::Note));
    for addr in [0xA000u16, 0xBFFF, 0xC000, 0xDFFF, 0xFF80, 0xFFFE] {
        assert_eq!(bus.read(addr), 0);
    }
    bus.write(0xA000, 1);
    bus.write(0xBFFF, 2);
    bus.write(0xC000, 3);
    bus.write(0xDFFF, 4);
    bus.write(0xFF80, 5);
    bus.write(0xFFFE, 6);
    assert_eq!(bus.read(0xA000), 1);
    assert_eq!(bus.read(0xBFFF), 2);
    assert_eq!(bus.read(0xC000), 3);
    assert_eq!(bus.read(0xDFFF), 4);
    assert_eq!(bus.read(0xFF80), 5);
    assert_eq!(bus.read(0xFFFE), 6);
    assert_eq!(bus.peek(0xC000), 3);
    assert!(bus.logger.logbook.diagnostics.is_empty());
    assert!(bus.logger.logbook.io_log.is_empty());
}

#[test]
fn echo_ram_mirrors_work_ram_with_a_note() {
    let data = file(0x0400, &[]);
    let gbs = Gbs::new(&data).unwrap();
    let mut bus = GbsAddrSpace::new(&gbs, writer(DiagnosticLevel::Note));
    bus.write(0xC123, 0x42);
    assert_eq!(bus.read(0xE123), 0x42);
    bus.write(0xFDFF, 0x43);
    assert_eq!(bus.read(0xDDFF), 0x43);
    assert_eq!(
        bus.logger.logbook.diagnostics,
        vec![
            note(1, 0, DiagnosticKind::EchoRamRead(Address(1, 0xE123))),
            note(1, 0, DiagnosticKind::EchoRamWrite(Address(1, 0xFDFF), 0x43)),
        ]
    );
}

#[test]
fn notes_are_dropped_under_a_warning_threshold() {
    let data = file(0x0400, &[]);
    let gbs = Gbs::new(&data).unwrap();
    let mut bus = GbsAddrSpace::new(&gbs, writer(DiagnosticLevel::Warning));
    bus.write(0xE000, 0x42);
    assert_eq!(bus.read(0xE000), 0x42);
    assert_eq!(bus.read(0xFF15), 0xFF);
    assert!(bus.logger.logbook.diagnostics.is_empty());
    assert_eq!(bus.read(0x8000), 0xFF);
    assert_eq!(bus.logger.logbook.diagnostics.len(), 1);
    let mut bus = GbsAddrSpace::new(&gbs, writer(DiagnosticLevel::Error));
    assert_eq!(bus.read(0x8000), 0xFF);
    bus.write(0x8000, 1);
    assert!(bus.logger.logbook.diagnostics.is_empty());
}

#[test]
fn unmapped_ranges_read_as_ff_with_a_warning() {
    let data = file(0x0400, &[]);
    let gbs = Gbs::new(&data).unwrap();
    for addr in [0x8000u16, 0x9FFF, 0xFE00, 0xFEFF, 0xFF00, 0xFF0F, 0xFF27, 0xFF2F, 0xFF40, 0xFF7F, 0xFFFF] {
        let mut bus = GbsAddrSpace::new(&gbs, writer(DiagnosticLevel::Note));
        assert_eq!(bus.read(addr), 0xFF, "read of {:04x}", addr);
        bus.write(addr, 0x99);
        assert_eq!(bus.read(addr), 0xFF);
        assert_eq!(
            bus.logger.logbook.diagnostics,
            vec![
                warning(1, 0, DiagnosticKind::UnsupportedRead(Address(1, addr))),
                warning(1, 0, DiagnosticKind::UnsupportedWrite(Address(1, addr), 0x99)),
                warning(1, 0, DiagnosticKind::UnsupportedRead(Address(1, addr))),
            ]
        );
        assert!(bus.logger.logbook.io_log.is_empty());
        assert_eq!(bus.silence_timer, 0);
    }
}

#[test]
fn sound_registers_read_back_under_their_masks() {
    let masks: [(u16, u8); 21] = [
        (0xFF10, 0x80), (0xFF11, 0x3F), (0xFF12, 0x00), (0xFF13, 0xFF), (0xFF14, 0xBF),
        (0xFF16, 0x3F), (0xFF17, 0x00), (0xFF18, 0xFF), (0xFF19, 0xBF),
        (0xFF1A, 0x7F), (0xFF1B, 0x00), (0xFF1C, 0x00), (0xFF1D, 0xFF), (0xFF1E, 0xBF),
        (0xFF20, 0xC0), (0xFF21, 0x00), (0xFF22, 0xFF), (0xFF23, 0xBF),
        (0xFF24, 0x00), (0xFF25, 0x00), (0xFF26, 0x70),
    ];
    let data = file(0x0400, &[]);
    let gbs = Gbs::new(&data).unwrap();
    let mut bus = GbsAddrSpace::new(&gbs, writer(DiagnosticLevel::Note));
    for (addr, mask) in masks {
        assert_eq!(read_mask(addr), mask);
        assert_eq!(bus.read(addr), mask, "fresh read of {:04x}", addr);
        for value in [0x00u8, 0x5A, 0xA5, 0xFF] {
            bus.write(addr, value);
            let back = bus.read(addr);
            assert_eq!(back, value | mask);
            assert_eq!(back & !mask, value & !mask);
        }
    }
    assert!(bus.logger.logbook.diagnostics.is_empty());
    assert_eq!(bus.logger.logbook.io_log.len(), 21 * 4);
}

#[test]
fn wave_ram_reads_back_unchanged() {
    let data = file(0x0400, &[]);
    let gbs = Gbs::new(&data).unwrap();
    let mut bus = GbsAddrSpace::new(&gbs, writer(DiagnosticLevel::Note));
    for i in 0..16u16 {
        assert_eq!(read_mask(0xFF30 + i), 0);
        bus.write(0xFF30 + i, 0xF0 | i as u8);
    }
    for i in 0..16u16 {
        assert_eq!(bus.read(0xFF30 + i), 0xF0 | i as u8);
    }
    assert!(bus.logger.logbook.diagnostics.is_empty());
    assert_eq!(bus.logger.logbook.io_log.len(), 16);
}

#[test]
fn holes_read_ff_and_are_noted() {
    let data = file(0x0400, &[]);
    let gbs = Gbs::new(&data).unwrap();
    for addr in [0xFF15u16, 0xFF1F] {
        assert!(is_hole(addr));
        let mut bus = GbsAddrSpace::new(&gbs, writer(DiagnosticLevel::Note));
        bus.silence_timer = 77;
        bus.write(addr, 0x12);
        assert_eq!(bus.silence_timer, 0);
        assert_eq!(bus.read(addr), 0xFF);
        assert_eq!(
            bus.logger.logbook.diagnostics,
            vec![
                note(1, 0, DiagnosticKind::UnsupportedWrite(Address(1, addr), 0x12)),
                note(1, 0, DiagnosticKind::UnsupportedRead(Address(1, addr))),
            ]
        );
        assert_eq!(bus.logger.logbook.io_log.len(), 1);
        assert_eq!(bus.logger.logbook.io_log[0].addr, addr);
    }
    assert!(!is_hole(0xFF14));
}

#[test]
fn writes_to_the_sound_hardware_are_logged_and_break_the_silence() {
    let data = file(0x0400, &[]);
    let gbs = Gbs::new(&data).unwrap();
    let mut bus = GbsAddrSpace::new(&gbs, writer(DiagnosticLevel::Note));
    bus.logger.pc = 0x0456;
    bus.logger.tick = 3;
    bus.logger.cycle = 21;
    bus.silence_timer = 5000;
    bus.write(0xC000, 1);
    assert_eq!(bus.silence_timer, 5000);
    assert_eq!(bus.read(0xFF26), 0x70);
    assert_eq!(bus.silence_timer, 5000);
    bus.write(0xFF26, 0x80);
    assert_eq!(bus.silence_timer, 0);
    assert_eq!(
        bus.logger.logbook.io_log,
        vec![IoAccess {
            when: Timestamp { tick: 3, cycle: 21 },
            pc: Address(1, 0x0456),
            addr: 0xFF26,
            data: 0x80,
        }]
    );
}

#[test]
fn peek_and_lookup_leave_no_trace() {
    let data = file(0x0400, &[0x3E]);
    let gbs = Gbs::new(&data).unwrap();
    let bus = GbsAddrSpace::new(&gbs, writer(DiagnosticLevel::Note));
    assert_eq!(bus.peek(0x0400), 0x3E);
    assert_eq!(bus.peek(0x0000), 0xFF);
    assert_eq!(bus.peek(0x5000), 0x00);
    assert_eq!(bus.peek(0xFF13), 0xFF);
    assert_eq!(
        bus.lookup(0x8000),
        (
            0xFF,
            Some((DiagnosticLevel::Warning, DiagnosticKind::UnsupportedRead(Address(1, 0x8000))))
        )
    );
    assert_eq!(bus.lookup(0xC000), (0, None));
    assert!(bus.logger.logbook.diagnostics.is_empty());
    assert_eq!(bus.cur_bank_addr(0x1234), Address(1, 0x1234));
}

#[test]
fn apu_answers_in_its_band_only() {
    let apu = Apu::new();
    let mut logger = writer(DiagnosticLevel::Note);
    assert_eq!(apu.peek(0xFF0F), None);
    assert_eq!(apu.peek(0xFF10), Some(0x80));
    assert_eq!(apu.peek(0xFF26), Some(0x70));
    assert_eq!(apu.peek(0xFF27), None);
    assert_eq!(apu.peek(0xFF2F), None);
    assert_eq!(apu.peek(0xFF30), Some(0));
    assert_eq!(apu.peek(0xFF3F), Some(0));
    assert_eq!(apu.peek(0xFF40), None);
    assert_eq!(apu.read(&mut logger, 0xFF27), None);
    assert_eq!(apu.read(&mut logger, 0xFF12), Some(0));
    assert!(logger.logbook.diagnostics.is_empty());
    let mut apu = apu;
    let mut silence = 9u32;
    assert_eq!(apu.write(&mut logger, &mut silence, 0xFF27, 1), None);
    assert_eq!(apu.write(&mut logger, &mut silence, 0xFF40, 1), None);
    assert_eq!(apu.write(&mut logger, &mut silence, 0xFF04, 1), None);
    assert_eq!(silence, 9);
    assert!(logger.logbook.io_log.is_empty());
    assert_eq!(apu.write(&mut logger, &mut silence, 0xFF12, 0xF3), Some(()));
    assert_eq!(silence, 0);
    assert_eq!(apu.peek(0xFF12), Some(0xF3));
    assert_eq!(logger.logbook.io_log.len(), 1);
}

#[test]
fn logbook_writer_stamps_records() {
    let mut logger = writer(DiagnosticLevel::Warning);
    assert_eq!(logger.now(), Timestamp { tick: 0, cycle: 0 });
    assert_eq!(logger.rom_bank, 1);
    logger.pc = 0x0410;
    logger.cycle = 12;
    logger.log(0xFF11, 0x80);
    logger.diagnose(DiagnosticLevel::Warning, DiagnosticKind::TooLong(9, 8));
    logger.diagnose(DiagnosticLevel::Note, DiagnosticKind::DebugOp(Address(1, 0x0410)));
    logger.diagnose(DiagnosticLevel::Error, DiagnosticKind::TooLong(1, 0));
    logger.next_tick();
    assert_eq!(logger.now(), Timestamp { tick: 1, cycle: 0 });
    logger.log(0xFF12, 0x81);
    let logbook = logger.into_logbook();
    assert_eq!(
        logbook.io_log,
        vec![
            IoAccess { when: Timestamp { tick: 0, cycle: 12 }, pc: Address(1, 0x0410), addr: 0xFF11, data: 0x80 },
            IoAccess { when: Timestamp { tick: 1, cycle: 0 }, pc: Address(1, 0x0410), addr: 0xFF12, data: 0x81 },
        ]
    );
    assert_eq!(
        logbook.diagnostics,
        vec![
            Diagnostic {
                when: Timestamp { tick: 0, cycle: 12 },
                pc: Address(1, 0x0410),
                level: DiagnosticLevel::Warning,
                kind: DiagnosticKind::TooLong(9, 8),
            },
            Diagnostic {
                when: Timestamp { tick: 0, cycle: 12 },
                pc: Address(1, 0x0410),
                level: DiagnosticLevel::Error,
                kind: DiagnosticKind::TooLong(1, 0),
            },
        ]
    );
}

#[test]
fn a_parked_address_space_is_empty() {
    let bus = GbsAddrSpace::parked(DiagnosticLevel::Warning);
    assert!(bus.rom.is_empty());
    assert!(bus.sram.is_empty() && bus.wram.is_empty() && bus.hram.is_empty());
    assert_eq!(bus.load_addr, 0);
    assert_eq!(bus.silence_timer, 0);
    assert_eq!(bus.logger.max_level, DiagnosticLevel::Warning);
    assert_eq!(bus.logger.rom_bank, 1);
    assert_eq!(bus.apu.peek(0xFF26), Some(0x70));
}

#[test]
fn diagnose_and_into_logger() {
    let data = file(0x0400, &[]);
    let gbs = Gbs::new(&data).unwrap();
    let mut bus = GbsAddrSpace::new(&gbs, writer(DiagnosticLevel::Warning));
    bus.diagnose(DiagnosticLevel::Warning, DiagnosticKind::TooLong(3, 2));
    bus.diagnose(DiagnosticLevel::Note, DiagnosticKind::TooLong(4, 2));
    let logbook = bus.into_logger().into_logbook();
    assert_eq!(logbook.diagnostics, vec![warning(1, 0, DiagnosticKind::TooLong(3, 2))]);
    assert!(logbook.io_log.is_empty());
}

#[test]
fn an_empty_logbook() {
    let logbook = Logbook::default();
    assert!(logbook.diagnostics.is_empty());
    assert!(logbook.io_log.is_empty());
    let logbook = Logbook::new();
    assert!(logbook.diagnostics.is_empty());
    assert!(logbook.io_log.is_empty());
}

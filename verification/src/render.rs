//! The words for what the library reports.

use vstd::prelude::*;
use vstd::string::StringExecFns;
use crate::diag::{Address, DiagnosticLevel};
use crate::gbs::{AddressKind, FormatError, HeaderFault};
use crate::hw::{hw_reg_at, is_hw_reg};
use crate::reg_log::Reg;
use crate::text::{decimal, decimal_text, digit_str, hex2, hex2_text, hex4, hex4_text, digit_char};

verus! {

/// The name of the hardware register at `addr`, if it has one here.
pub open spec fn hw_reg_name(addr: u16) -> Option<Seq<char>> {
    if addr == 0x0000 {
        Some("RAMG"@)
    } else if addr == 0x2000 {
        Some("ROMB0"@)
    } else if addr == 0x3000 {
        Some("ROMB1"@)
    } else if addr == 0x4000 {
        Some("RAMB"@)
    } else if addr == 0x6000 {
        Some("RTCLATCH"@)
    } else if addr == 0xFF00 {
        Some("P1"@)
    } else if addr == 0xFF01 {
        Some("SB"@)
    } else if addr == 0xFF02 {
        Some("SC"@)
    } else if addr == 0xFF04 {
        Some("DIV"@)
    } else if addr == 0xFF05 {
        Some("TIMA"@)
    } else if addr == 0xFF06 {
        Some("TMA"@)
    } else if addr == 0xFF07 {
        Some("TAC"@)
    } else if addr == 0xFF0F {
        Some("IF"@)
    } else if addr == 0xFF10 {
        Some("NR10"@)
    } else if addr == 0xFF11 {
        Some("NR11"@)
    } else if addr == 0xFF12 {
        Some("NR12"@)
    } else if addr == 0xFF13 {
        Some("NR13"@)
    } else if addr == 0xFF14 {
        Some("NR14"@)
    } else if addr == 0xFF16 {
        Some("NR21"@)
    } else if addr == 0xFF17 {
        Some("NR22"@)
    } else if addr == 0xFF18 {
        Some("NR23"@)
    } else if addr == 0xFF19 {
        Some("NR24"@)
    } else if addr == 0xFF1A {
        Some("NR30"@)
    } else if addr == 0xFF1B {
        Some("NR31"@)
    } else if addr == 0xFF1C {
        Some("NR32"@)
    } else if addr == 0xFF1D {
        Some("NR33"@)
    } else if addr == 0xFF1E {
        Some("NR34"@)
    } else if addr == 0xFF20 {
        Some("NR41"@)
    } else if addr == 0xFF21 {
        Some("NR42"@)
    } else if addr == 0xFF22 {
        Some("NR43"@)
    } else if addr == 0xFF23 {
        Some("NR44"@)
    } else if addr == 0xFF24 {
        Some("NR50"@)
    } else if addr == 0xFF25 {
        Some("NR51"@)
    } else if addr == 0xFF26 {
        Some("NR52"@)
    } else if addr == 0xFF30 {
        Some("Wave RAM[0]"@)
    } else if addr == 0xFF31 {
        Some("Wave RAM[1]"@)
    } else if addr == 0xFF32 {
        Some("Wave RAM[2]"@)
    } else if addr == 0xFF33 {
        Some("Wave RAM[3]"@)
    } else if addr == 0xFF34 {
        Some("Wave RAM[4]"@)
    } else if addr == 0xFF35 {
        Some("Wave RAM[5]"@)
    } else if addr == 0xFF36 {
        Some("Wave RAM[6]"@)
    } else if addr == 0xFF37 {
        Some("Wave RAM[7]"@)
    } else if addr == 0xFF38 {
        Some("Wave RAM[8]"@)
    } else if addr == 0xFF39 {
        Some("Wave RAM[9]"@)
    } else if addr == 0xFF3A {
        Some("Wave RAM[10]"@)
    } else if addr == 0xFF3B {
        Some("Wave RAM[11]"@)
    } else if addr == 0xFF3C {
        Some("Wave RAM[12]"@)
    } else if addr == 0xFF3D {
        Some("Wave RAM[13]"@)
    } else if addr == 0xFF3E {
        Some("Wave RAM[14]"@)
    } else if addr == 0xFF3F {
        Some("Wave RAM[15]"@)
    } else if addr == 0xFF40 {
        Some("LCDC"@)
    } else if addr == 0xFF41 {
        Some("STAT"@)
    } else if addr == 0xFF42 {
        Some("SCY"@)
    } else if addr == 0xFF43 {
        Some("SCX"@)
    } else if addr == 0xFF44 {
        Some("LY"@)
    } else if addr == 0xFF45 {
        Some("LYC"@)
    } else if addr == 0xFF46 {
        Some("DMA"@)
    } else if addr == 0xFF47 {
        Some("BGP"@)
    } else if addr == 0xFF48 {
        Some("OBP0"@)
    } else if addr == 0xFF49 {
        Some("OBP1"@)
    } else if addr == 0xFF4A {
        Some("WY"@)
    } else if addr == 0xFF4B {
        Some("WX"@)
    } else if addr == 0xFF4D {
        Some("KEY1"@)
    } else if addr == 0xFF4F {
        Some("VBK"@)
    } else if addr == 0xFF51 {
        Some("HDMA1"@)
    } else if addr == 0xFF52 {
        Some("HDMA2"@)
    } else if addr == 0xFF53 {
        Some("HDMA3"@)
    } else if addr == 0xFF54 {
        Some("HDMA4"@)
    } else if addr == 0xFF55 {
        Some("HDMA5"@)
    } else if addr == 0xFF56 {
        Some("RP"@)
    } else if addr == 0xFF68 {
        Some("BCPS"@)
    } else if addr == 0xFF69 {
        Some("BCPD"@)
    } else if addr == 0xFF6A {
        Some("OCPS"@)
    } else if addr == 0xFF6B {
        Some("OCPD"@)
    } else if addr == 0xFF70 {
        Some("SVBK"@)
    } else if addr == 0xFF76 {
        Some("PCM12"@)
    } else if addr == 0xFF77 {
        Some("PCM34"@)
    } else if addr == 0xFFFF {
        Some("IE"@)
    } else {
        None
    }
}

/// The name of the hardware register at `addr`, if it has one here.
pub fn hw_reg_label(addr: u16) -> (r: Option<&'static str>)
    ensures
        match r {
            Some(name) => hw_reg_name(addr) == Some(name@),
            None => hw_reg_name(addr) is None,
        },
{
    if addr == 0x0000 {
        Some("RAMG")
    } else if addr == 0x2000 {
        Some("ROMB0")
    } else if addr == 0x3000 {
        Some("ROMB1")
    } else if addr == 0x4000 {
        Some("RAMB")
    } else if addr == 0x6000 {
        Some("RTCLATCH")
    } else if addr == 0xFF00 {
        Some("P1")
    } else if addr == 0xFF01 {
        Some("SB")
    } else if addr == 0xFF02 {
        Some("SC")
    } else if addr == 0xFF04 {
        Some("DIV")
    } else if addr == 0xFF05 {
        Some("TIMA")
    } else if addr == 0xFF06 {
        Some("TMA")
    } else if addr == 0xFF07 {
        Some("TAC")
    } else if addr == 0xFF0F {
        Some("IF")
    } else if addr == 0xFF10 {
        Some("NR10")
    } else if addr == 0xFF11 {
        Some("NR11")
    } else if addr == 0xFF12 {
        Some("NR12")
    } else if addr == 0xFF13 {
        Some("NR13")
    } else if addr == 0xFF14 {
        Some("NR14")
    } else if addr == 0xFF16 {
        Some("NR21")
    } else if addr == 0xFF17 {
        Some("NR22")
    } else if addr == 0xFF18 {
        Some("NR23")
    } else if addr == 0xFF19 {
        Some("NR24")
    } else if addr == 0xFF1A {
        Some("NR30")
    } else if addr == 0xFF1B {
        Some("NR31")
    } else if addr == 0xFF1C {
        Some("NR32")
    } else if addr == 0xFF1D {
        Some("NR33")
    } else if addr == 0xFF1E {
        Some("NR34")
    } else if addr == 0xFF20 {
        Some("NR41")
    } else if addr == 0xFF21 {
        Some("NR42")
    } else if addr == 0xFF22 {
        Some("NR43")
    } else if addr == 0xFF23 {
        Some("NR44")
    } else if addr == 0xFF24 {
        Some("NR50")
    } else if addr == 0xFF25 {
        Some("NR51")
    } else if addr == 0xFF26 {
        Some("NR52")
    } else if addr == 0xFF30 {
        Some("Wave RAM[0]")
    } else if addr == 0xFF31 {
        Some("Wave RAM[1]")
    } else if addr == 0xFF32 {
        Some("Wave RAM[2]")
    } else if addr == 0xFF33 {
        Some("Wave RAM[3]")
    } else if addr == 0xFF34 {
        Some("Wave RAM[4]")
    } else if addr == 0xFF35 {
        Some("Wave RAM[5]")
    } else if addr == 0xFF36 {
        Some("Wave RAM[6]")
    } else if addr == 0xFF37 {
        Some("Wave RAM[7]")
    } else if addr == 0xFF38 {
        Some("Wave RAM[8]")
    } else if addr == 0xFF39 {
        Some("Wave RAM[9]")
    } else if addr == 0xFF3A {
        Some("Wave RAM[10]")
    } else if addr == 0xFF3B {
        Some("Wave RAM[11]")
    } else if addr == 0xFF3C {
        Some("Wave RAM[12]")
    } else if addr == 0xFF3D {
        Some("Wave RAM[13]")
    } else if addr == 0xFF3E {
        Some("Wave RAM[14]")
    } else if addr == 0xFF3F {
        Some("Wave RAM[15]")
    } else if addr == 0xFF40 {
        Some("LCDC")
    } else if addr == 0xFF41 {
        Some("STAT")
    } else if addr == 0xFF42 {
        Some("SCY")
    } else if addr == 0xFF43 {
        Some("SCX")
    } else if addr == 0xFF44 {
        Some("LY")
    } else if addr == 0xFF45 {
        Some("LYC")
    } else if addr == 0xFF46 {
        Some("DMA")
    } else if addr == 0xFF47 {
        Some("BGP")
    } else if addr == 0xFF48 {
        Some("OBP0")
    } else if addr == 0xFF49 {
        Some("OBP1")
    } else if addr == 0xFF4A {
        Some("WY")
    } else if addr == 0xFF4B {
        Some("WX")
    } else if addr == 0xFF4D {
        Some("KEY1")
    } else if addr == 0xFF4F {
        Some("VBK")
    } else if addr == 0xFF51 {
        Some("HDMA1")
    } else if addr == 0xFF52 {
        Some("HDMA2")
    } else if addr == 0xFF53 {
        Some("HDMA3")
    } else if addr == 0xFF54 {
        Some("HDMA4")
    } else if addr == 0xFF55 {
        Some("HDMA5")
    } else if addr == 0xFF56 {
        Some("RP")
    } else if addr == 0xFF68 {
        Some("BCPS")
    } else if addr == 0xFF69 {
        Some("BCPD")
    } else if addr == 0xFF6A {
        Some("OCPS")
    } else if addr == 0xFF6B {
        Some("OCPD")
    } else if addr == 0xFF70 {
        Some("SVBK")
    } else if addr == 0xFF76 {
        Some("PCM12")
    } else if addr == 0xFF77 {
        Some("PCM34")
    } else if addr == 0xFFFF {
        Some("IE")
    } else {
        None
    }
}

/// How a register is called in a report: by its name where the CPU core's
/// crate knows a register at the address, by the address in hexadecimal
/// behind a `$` where it knows none. A register that it knows and that has no
/// name here is called by its address in decimal.
pub open spec fn reg_text(addr: u16) -> Seq<char> {
    if is_hw_reg(addr) {
        match hw_reg_name(addr) {
            Some(name) => name,
            None => decimal_text(addr as nat),
        }
    } else {
        "$"@ + hex4_text(addr)
    }
}

/// How the register at `addr` is called in a report.
pub fn reg_name(addr: u16) -> (r: String)
    ensures
        r@ == reg_text(addr),
{
    match hw_reg_at(addr) {
        Some(reg) => match hw_reg_label(reg) {
            Some(name) => String::from_str(name),
            None => decimal(reg as u64),
        },
        None => {
            let mut text = String::from_str("$");
            text.append(hex4(addr).as_str());
            text
        },
    }
}

/// Every register that the CPU core's crate knows has a name here.
pub proof fn lemma_known_registers_are_named(addr: u16)
    ensures
        is_hw_reg(addr) <==> hw_reg_name(addr) is Some,
{
}

/// An address as text: the bank in two hexadecimal digits, a colon, and the
/// offset in four. Outside the banked window the bank is shown as 00.
pub open spec fn address_text(address: Address) -> Seq<char> {
    hex2_text(address.spec_shown_bank()) + ":"@ + hex4_text(address.1)
}

impl Address {
    /// The address as text: see `address_text`.
    pub fn to_hex(&self) -> (r: String)
        ensures
            r@ == address_text(*self),
    {
        let mut text = hex2(self.shown_bank());
        text.append(":");
        text.append(hex4(self.1).as_str());
        text
    }
}

/// A byte in hexadecimal without a leading zero.
pub open spec fn hex_short_text(value: u8) -> Seq<char> {
    if value < 16 {
        seq![digit_char(value as int)]
    } else {
        hex2_text(value)
    }
}

/// A byte in hexadecimal without a leading zero.
pub fn hex_short(value: u8) -> (r: String)
    ensures
        r@ == hex_short_text(value),
{
    if value < 16 {
        String::from_str(digit_str(value))
    } else {
        hex2(value)
    }
}

impl DiagnosticLevel {
    /// The name of the level.
    pub open spec fn name_text(self) -> Seq<char> {
        match self {
            DiagnosticLevel::Error => "Error"@,
            DiagnosticLevel::Warning => "Warning"@,
            DiagnosticLevel::Note => "Note"@,
        }
    }

    /// The name of the level.
    pub fn name(self) -> (r: &'static str)
        ensures
            r@ == self.name_text(),
    {
        match self {
            DiagnosticLevel::Error => "Error",
            DiagnosticLevel::Warning => "Warning",
            DiagnosticLevel::Note => "Note",
        }
    }
}

impl AddressKind {
    /// The name of the entry point, in lower case.
    pub open spec fn name_text(self) -> Seq<char> {
        match self {
            AddressKind::Load => "load"@,
            AddressKind::Init => "init"@,
            AddressKind::Play => "play"@,
        }
    }

    /// The name of the entry point, in lower case.
    pub fn name(self) -> (r: &'static str)
        ensures
            r@ == self.name_text(),
    {
        match self {
            AddressKind::Load => "load",
            AddressKind::Init => "init",
            AddressKind::Play => "play",
        }
    }
}

/// How far apart, and in which direction, in words.
pub open spec fn moved_by_text(delta: i32) -> Seq<char> {
    if delta < 0 {
        decimal_text((-delta) as nat) + " cycles earlier"@
    } else {
        decimal_text(delta as nat) + " cycles later"@
    }
}

/// How far apart, and in which direction, in words.
pub fn moved_by(delta: i32) -> (r: String)
    ensures
        r@ == moved_by_text(delta),
{
    if delta < 0 {
        let mut text = decimal((-(delta as i64)) as u64);
        text.append(" cycles earlier");
        text
    } else {
        let mut text = decimal(delta as u64);
        text.append(" cycles later");
        text
    }
}

/// What a finding of the comparison says.
pub open spec fn diff_kind_text(kind: crate::diff::DiagnosticKind) -> Seq<char> {
    match kind {
        crate::diff::DiagnosticKind::Removed(reg, value) => "Missing write of $"@ + hex2_text(value) + " to "@ + reg_text(reg),
        crate::diff::DiagnosticKind::Added(reg, value) => "New write of $"@ + hex2_text(value) + " to "@ + reg_text(reg),
        crate::diff::DiagnosticKind::Moved(reg, value, delta) => "Wrote $"@ + hex2_text(value) + " to "@ + reg_text(reg) + " "@ + moved_by_text(delta),
        crate::diff::DiagnosticKind::OtherValue(reg, before, after) => "Wrote $"@ + hex2_text(after) + " to "@ + reg_text(reg) + " instead of $"@ + hex2_text(before),
        crate::diff::DiagnosticKind::OtherReg(before, value, after) => "$"@ + hex2_text(value) + " is written to "@ + reg_text(after) + " instead of "@ + reg_text(before),
    }
}

impl crate::diff::DiagnosticKind {
    /// What the finding says: see `diff_kind_text`.
    pub fn to_string(&self) -> (r: String)
        ensures
            r@ == diff_kind_text(*self),
    {
        match *self {
            crate::diff::DiagnosticKind::Removed(reg, value) => {
                let mut text = String::from_str("Missing write of $");
                text.append(hex2(value).as_str());
                text.append(" to ");
                text.append(reg_name(reg).as_str());
                text
            },
            crate::diff::DiagnosticKind::Added(reg, value) => {
                let mut text = String::from_str("New write of $");
                text.append(hex2(value).as_str());
                text.append(" to ");
                text.append(reg_name(reg).as_str());
                text
            },
            crate::diff::DiagnosticKind::Moved(reg, value, delta) => {
                let mut text = String::from_str("Wrote $");
                text.append(hex2(value).as_str());
                text.append(" to ");
                text.append(reg_name(reg).as_str());
                text.append(" ");
                text.append(moved_by(delta).as_str());
                text
            },
            crate::diff::DiagnosticKind::OtherValue(reg, before, after) => {
                let mut text = String::from_str("Wrote $");
                text.append(hex2(after).as_str());
                text.append(" to ");
                text.append(reg_name(reg).as_str());
                text.append(" instead of $");
                text.append(hex2(before).as_str());
                text
            },
            crate::diff::DiagnosticKind::OtherReg(before, value, after) => {
                let mut text = String::from_str("$");
                text.append(hex2(value).as_str());
                text.append(" is written to ");
                text.append(reg_name(after).as_str());
                text.append(" instead of ");
                text.append(reg_name(before).as_str());
                text
            },
        }
    }
}

/// What a diagnostic of the simulation says.
pub open spec fn sim_kind_text(kind: crate::run::DiagnosticKind) -> Seq<char> {
    match kind {
        crate::run::DiagnosticKind::UnsupportedRead(at) => "unsupported read from $"@ + address_text(at),
        crate::run::DiagnosticKind::UnsupportedWrite(at, data) => "unsupported write of $"@ + hex2_text(data) + " to $"@ + address_text(at),
        crate::run::DiagnosticKind::EchoRamRead(at) => "read from echo RAM at $"@ + address_text(at),
        crate::run::DiagnosticKind::EchoRamWrite(at, data) => "write of $"@ + address_text(at) + " to echo RAM at $"@ + hex_short_text(data),
        crate::run::DiagnosticKind::TooLong(cycles, budget) => "tick took "@ + decimal_text(cycles as nat) + " cycles, over the budget of "@ + decimal_text(budget as nat) + " cycles"@,
        crate::run::DiagnosticKind::DebugOp(at) => "executed a debug opcode at $"@ + address_text(at),
    }
}

impl crate::run::DiagnosticKind {
    /// What the diagnostic says: see `sim_kind_text`.
    pub fn to_string(&self) -> (r: String)
        ensures
            r@ == sim_kind_text(*self),
    {
        match *self {
            crate::run::DiagnosticKind::UnsupportedRead(at) => {
                let mut text = String::from_str("unsupported read from $");
                text.append(at.to_hex().as_str());
                text
            },
            crate::run::DiagnosticKind::UnsupportedWrite(at, data) => {
                let mut text = String::from_str("unsupported write of $");
                text.append(hex2(data).as_str());
                text.append(" to $");
                text.append(at.to_hex().as_str());
                text
            },
            crate::run::DiagnosticKind::EchoRamRead(at) => {
                let mut text = String::from_str("read from echo RAM at $");
                text.append(at.to_hex().as_str());
                text
            },
            crate::run::DiagnosticKind::EchoRamWrite(at, data) => {
                let mut text = String::from_str("write of $");
                text.append(at.to_hex().as_str());
                text.append(" to echo RAM at $");
                text.append(hex_short(data).as_str());
                text
            },
            crate::run::DiagnosticKind::TooLong(cycles, budget) => {
                let mut text = String::from_str("tick took ");
                text.append(decimal(cycles as u64).as_str());
                text.append(" cycles, over the budget of ");
                text.append(decimal(budget as u64).as_str());
                text.append(" cycles");
                text
            },
            crate::run::DiagnosticKind::DebugOp(at) => {
                let mut text = String::from_str("executed a debug opcode at $");
                text.append(at.to_hex().as_str());
                text
            },
        }
    }
}

/// What a failure of the simulation says.
pub open spec fn error_text(kind: crate::run::Error) -> Seq<char> {
    match kind {
        crate::run::Error::Halted(at) => "executed a `halt` at $"@ + address_text(at),
        crate::run::Error::Stopped(at) => "executed a `stop` at $"@ + address_text(at),
        crate::run::Error::InvalidOpcode(opcode, at) => "executed invalid opcode $"@ + hex2_text(opcode) + " at $"@ + address_text(at),
        crate::run::Error::PoppedTooDeep(sp, target) => "aborted when SP reached $"@ + hex4_text(sp) + " (expected target: $"@ + hex4_text(target) + ")"@,
        crate::run::Error::LockedUp(at) => "CPU seemingly locked up at $"@ + address_text(at),
        crate::run::Error::Timeout => "timed out"@,
        crate::run::Error::PcHaywire(at) => "execution has gone haywire: PC = $"@ + address_text(at),
        crate::run::Error::SpHaywire(sp, at) => "stack has gone haywire: SP = $"@ + address_text(sp) + " (PC = $"@ + address_text(at) + ")"@,
    }
}

impl crate::run::Error {
    /// What the failure says: see `error_text`.
    pub fn to_string(&self) -> (r: String)
        ensures
            r@ == error_text(*self),
    {
        match *self {
            crate::run::Error::Halted(at) => {
                let mut text = String::from_str("executed a `halt` at $");
                text.append(at.to_hex().as_str());
                text
            },
            crate::run::Error::Stopped(at) => {
                let mut text = String::from_str("executed a `stop` at $");
                text.append(at.to_hex().as_str());
                text
            },
            crate::run::Error::InvalidOpcode(opcode, at) => {
                let mut text = String::from_str("executed invalid opcode $");
                text.append(hex2(opcode).as_str());
                text.append(" at $");
                text.append(at.to_hex().as_str());
                text
            },
            crate::run::Error::PoppedTooDeep(sp, target) => {
                let mut text = String::from_str("aborted when SP reached $");
                text.append(hex4(sp).as_str());
                text.append(" (expected target: $");
                text.append(hex4(target).as_str());
                text.append(")");
                text
            },
            crate::run::Error::LockedUp(at) => {
                let mut text = String::from_str("CPU seemingly locked up at $");
                text.append(at.to_hex().as_str());
                text
            },
            crate::run::Error::Timeout => {
                let mut text = String::from_str("timed out");
                text
            },
            crate::run::Error::PcHaywire(at) => {
                let mut text = String::from_str("execution has gone haywire: PC = $");
                text.append(at.to_hex().as_str());
                text
            },
            crate::run::Error::SpHaywire(sp, at) => {
                let mut text = String::from_str("stack has gone haywire: SP = $");
                text.append(sp.to_hex().as_str());
                text.append(" (PC = $");
                text.append(at.to_hex().as_str());
                text.append(")");
                text
            },
        }
    }
}

/// Bytes as a list in decimal, with a comma and a space between them.
pub open spec fn list_text(bytes: Seq<u8>) -> Seq<char>
    decreases bytes.len(),
{
    if bytes.len() == 0 {
        Seq::empty()
    } else if bytes.len() == 1 {
        decimal_text(bytes[0] as nat)
    } else {
        list_text(bytes.drop_last()) + ", "@ + decimal_text(bytes.last() as nat)
    }
}

/// Bytes as a list in decimal, with a comma and a space between them.
pub fn list_of(bytes: &[u8]) -> (r: String)
    ensures
        r@ == list_text(bytes@),
{
    let mut text = String::from_str("");
    proof {
        reveal_strlit("");
    }
    let mut at: usize = 0;
    while at < bytes.len()
        invariant
            at <= bytes@.len(),
            text@ == list_text(bytes@.subrange(0, at as int)),
        decreases bytes@.len() - at,
    {
        if at > 0 {
            text.append(", ");
        }
        text.append(decimal(bytes[at] as u64).as_str());
        assert(bytes@.subrange(0, at + 1).drop_last() =~= bytes@.subrange(0, at as int));
        at = at + 1;
    }
    assert(bytes@.subrange(0, at as int) =~= bytes@);
    text
}

/// Why a file was refused, in words.
pub open spec fn format_error_text(fault: HeaderFault) -> Seq<char> {
    match fault {
        HeaderFault::TruncatedHeader(len) => "expected at least 0x70 header bytes, got only "@
            + decimal_text(len),
        HeaderFault::BadMagic(found) => "expected \"GBS\" magic, got \"["@ + list_text(found)
            + "]\""@,
        HeaderFault::UnsupportedVersion(version) => "unsupported version "@ + decimal_text(
            version as nat,
        ),
        HeaderFault::ZeroSongs => "zero songs specified"@,
        HeaderFault::BadAddress(kind, addr) => "bad "@ + kind.name_text() + " address $"@
            + hex4_text(addr),
    }
}

impl<'a> FormatError<'a> {
    /// Why the file was refused, in words: see `format_error_text`.
    pub fn to_string(&self) -> (r: String)
        ensures
            r@ == format_error_text(self@),
    {
        match self {
            FormatError::TruncatedHeader(len) => {
                let mut text = String::from_str("expected at least 0x70 header bytes, got only ");
                text.append(decimal(*len as u64).as_str());
                text
            },
            FormatError::BadMagic(found) => {
                let mut text = String::from_str("expected \"GBS\" magic, got \"[");
                text.append(list_of(found).as_str());
                text.append("]\"");
                text
            },
            FormatError::UnsupportedVersion(version) => {
                let mut text = String::from_str("unsupported version ");
                text.append(decimal(*version as u64).as_str());
                text
            },
            FormatError::ZeroSongs => String::from_str("zero songs specified"),
            FormatError::BadAddress(kind, addr) => {
                let mut text = String::from_str("bad ");
                text.append(kind.name());
                text.append(" address $");
                text.append(hex4(*addr).as_str());
                text
            },
        }
    }
}

impl Reg {
    /// The name of the register.
    pub open spec fn name_text(self) -> Seq<char> {
        match self {
            Reg::Div => "DIV"@,
            Reg::Nr10 => "NR10"@,
            Reg::Nr11 => "NR11"@,
            Reg::Nr12 => "NR12"@,
            Reg::Nr13 => "NR13"@,
            Reg::Nr14 => "NR14"@,
            Reg::Nr21 => "NR21"@,
            Reg::Nr22 => "NR22"@,
            Reg::Nr23 => "NR23"@,
            Reg::Nr24 => "NR24"@,
            Reg::Nr30 => "NR30"@,
            Reg::Nr31 => "NR31"@,
            Reg::Nr32 => "NR32"@,
            Reg::Nr33 => "NR33"@,
            Reg::Nr34 => "NR34"@,
            Reg::Nr41 => "NR41"@,
            Reg::Nr42 => "NR42"@,
            Reg::Nr43 => "NR43"@,
            Reg::Nr44 => "NR44"@,
            Reg::Nr50 => "NR50"@,
            Reg::Nr51 => "NR51"@,
            Reg::Nr52 => "NR52"@,
            Reg::Wave0 => "wave RAM[0]"@,
            Reg::Wave1 => "wave RAM[1]"@,
            Reg::Wave2 => "wave RAM[2]"@,
            Reg::Wave3 => "wave RAM[3]"@,
            Reg::Wave4 => "wave RAM[4]"@,
            Reg::Wave5 => "wave RAM[5]"@,
            Reg::Wave6 => "wave RAM[6]"@,
            Reg::Wave7 => "wave RAM[7]"@,
            Reg::Wave8 => "wave RAM[8]"@,
            Reg::Wave9 => "wave RAM[9]"@,
            Reg::WaveA => "wave RAM[10]"@,
            Reg::WaveB => "wave RAM[11]"@,
            Reg::WaveC => "wave RAM[12]"@,
            Reg::WaveD => "wave RAM[13]"@,
            Reg::WaveE => "wave RAM[14]"@,
            Reg::WaveF => "wave RAM[15]"@,
        }
    }

    /// The name of the register.
    pub fn name(self) -> (r: &'static str)
        ensures
            r@ == self.name_text(),
    {
        match self {
            Reg::Div => "DIV",
            Reg::Nr10 => "NR10",
            Reg::Nr11 => "NR11",
            Reg::Nr12 => "NR12",
            Reg::Nr13 => "NR13",
            Reg::Nr14 => "NR14",
            Reg::Nr21 => "NR21",
            Reg::Nr22 => "NR22",
            Reg::Nr23 => "NR23",
            Reg::Nr24 => "NR24",
            Reg::Nr30 => "NR30",
            Reg::Nr31 => "NR31",
            Reg::Nr32 => "NR32",
            Reg::Nr33 => "NR33",
            Reg::Nr34 => "NR34",
            Reg::Nr41 => "NR41",
            Reg::Nr42 => "NR42",
            Reg::Nr43 => "NR43",
            Reg::Nr44 => "NR44",
            Reg::Nr50 => "NR50",
            Reg::Nr51 => "NR51",
            Reg::Nr52 => "NR52",
            Reg::Wave0 => "wave RAM[0]",
            Reg::Wave1 => "wave RAM[1]",
            Reg::Wave2 => "wave RAM[2]",
            Reg::Wave3 => "wave RAM[3]",
            Reg::Wave4 => "wave RAM[4]",
            Reg::Wave5 => "wave RAM[5]",
            Reg::Wave6 => "wave RAM[6]",
            Reg::Wave7 => "wave RAM[7]",
            Reg::Wave8 => "wave RAM[8]",
            Reg::Wave9 => "wave RAM[9]",
            Reg::WaveA => "wave RAM[10]",
            Reg::WaveB => "wave RAM[11]",
            Reg::WaveC => "wave RAM[12]",
            Reg::WaveD => "wave RAM[13]",
            Reg::WaveE => "wave RAM[14]",
            Reg::WaveF => "wave RAM[15]",
        }
    }
}

} // verus!

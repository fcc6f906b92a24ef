//! A log of register writes in text form: one write a line, as the cycles
//! since the write before, the register and the value, all in hexadecimal.

use vstd::prelude::*;
use vstd::string::StrSliceExecFns;
use crate::text::{
    char_from, cut_spaces, find_char, find_space, hex_u16, hex_u32, hex_u8, hex_up_to,
    skip_spaces, space_from, trim_end, trim_start,
};
use std::num::ParseIntError;

verus! {

/// A register that a log can name: the divider, the sound registers, and the
/// bytes of wave RAM.
#[derive(Debug, Clone, Copy, PartialEq, Eq, Structural)]
pub enum Reg {
    Div,
    Nr10,
    Nr11,
    Nr12,
    Nr13,
    Nr14,
    Nr21,
    Nr22,
    Nr23,
    Nr24,
    Nr30,
    Nr31,
    Nr32,
    Nr33,
    Nr34,
    Nr41,
    Nr42,
    Nr43,
    Nr44,
    Nr50,
    Nr51,
    Nr52,
    Wave0,
    Wave1,
    Wave2,
    Wave3,
    Wave4,
    Wave5,
    Wave6,
    Wave7,
    Wave8,
    Wave9,
    WaveA,
    WaveB,
    WaveC,
    WaveD,
    WaveE,
    WaveF,
}

impl Reg {
    /// The address of the register.
    pub open spec fn spec_addr(self) -> u16 {
        match self {
            Reg::Div => 0xFF04,
            Reg::Nr10 => 0xFF10,
            Reg::Nr11 => 0xFF11,
            Reg::Nr12 => 0xFF12,
            Reg::Nr13 => 0xFF13,
            Reg::Nr14 => 0xFF14,
            Reg::Nr21 => 0xFF16,
            Reg::Nr22 => 0xFF17,
            Reg::Nr23 => 0xFF18,
            Reg::Nr24 => 0xFF19,
            Reg::Nr30 => 0xFF1A,
            Reg::Nr31 => 0xFF1B,
            Reg::Nr32 => 0xFF1C,
            Reg::Nr33 => 0xFF1D,
            Reg::Nr34 => 0xFF1E,
            Reg::Nr41 => 0xFF20,
            Reg::Nr42 => 0xFF21,
            Reg::Nr43 => 0xFF22,
            Reg::Nr44 => 0xFF23,
            Reg::Nr50 => 0xFF24,
            Reg::Nr51 => 0xFF25,
            Reg::Nr52 => 0xFF26,
            Reg::Wave0 => 0xFF30,
            Reg::Wave1 => 0xFF31,
            Reg::Wave2 => 0xFF32,
            Reg::Wave3 => 0xFF33,
            Reg::Wave4 => 0xFF34,
            Reg::Wave5 => 0xFF35,
            Reg::Wave6 => 0xFF36,
            Reg::Wave7 => 0xFF37,
            Reg::Wave8 => 0xFF38,
            Reg::Wave9 => 0xFF39,
            Reg::WaveA => 0xFF3A,
            Reg::WaveB => 0xFF3B,
            Reg::WaveC => 0xFF3C,
            Reg::WaveD => 0xFF3D,
            Reg::WaveE => 0xFF3E,
            Reg::WaveF => 0xFF3F,
        }
    }

    /// The address of the register.
    #[verifier::when_used_as_spec(spec_addr)]
    pub fn addr(self) -> (r: u16)
        ensures
            r == self.spec_addr(),
    {
        match self {
            Reg::Div => 0xFF04,
            Reg::Nr10 => 0xFF10,
            Reg::Nr11 => 0xFF11,
            Reg::Nr12 => 0xFF12,
            Reg::Nr13 => 0xFF13,
            Reg::Nr14 => 0xFF14,
            Reg::Nr21 => 0xFF16,
            Reg::Nr22 => 0xFF17,
            Reg::Nr23 => 0xFF18,
            Reg::Nr24 => 0xFF19,
            Reg::Nr30 => 0xFF1A,
            Reg::Nr31 => 0xFF1B,
            Reg::Nr32 => 0xFF1C,
            Reg::Nr33 => 0xFF1D,
            Reg::Nr34 => 0xFF1E,
            Reg::Nr41 => 0xFF20,
            Reg::Nr42 => 0xFF21,
            Reg::Nr43 => 0xFF22,
            Reg::Nr44 => 0xFF23,
            Reg::Nr50 => 0xFF24,
            Reg::Nr51 => 0xFF25,
            Reg::Nr52 => 0xFF26,
            Reg::Wave0 => 0xFF30,
            Reg::Wave1 => 0xFF31,
            Reg::Wave2 => 0xFF32,
            Reg::Wave3 => 0xFF33,
            Reg::Wave4 => 0xFF34,
            Reg::Wave5 => 0xFF35,
            Reg::Wave6 => 0xFF36,
            Reg::Wave7 => 0xFF37,
            Reg::Wave8 => 0xFF38,
            Reg::Wave9 => 0xFF39,
            Reg::WaveA => 0xFF3A,
            Reg::WaveB => 0xFF3B,
            Reg::WaveC => 0xFF3C,
            Reg::WaveD => 0xFF3D,
            Reg::WaveE => 0xFF3E,
            Reg::WaveF => 0xFF3F,
        }
    }

    /// The register at the address `discrim`; the address itself comes back
    /// where no register is.
    pub fn from_discriminant(discrim: u16) -> (r: Result<Reg, u16>)
        ensures
            r == reg_at(discrim),
    {
        if discrim == 0xFF04 {
            Ok(Reg::Div)
        } else if discrim == 0xFF10 {
            Ok(Reg::Nr10)
        } else if discrim == 0xFF11 {
            Ok(Reg::Nr11)
        } else if discrim == 0xFF12 {
            Ok(Reg::Nr12)
        } else if discrim == 0xFF13 {
            Ok(Reg::Nr13)
        } else if discrim == 0xFF14 {
            Ok(Reg::Nr14)
        } else if discrim == 0xFF16 {
            Ok(Reg::Nr21)
        } else if discrim == 0xFF17 {
            Ok(Reg::Nr22)
        } else if discrim == 0xFF18 {
            Ok(Reg::Nr23)
        } else if discrim == 0xFF19 {
            Ok(Reg::Nr24)
        } else if discrim == 0xFF1A {
            Ok(Reg::Nr30)
        } else if discrim == 0xFF1B {
            Ok(Reg::Nr31)
        } else if discrim == 0xFF1C {
            Ok(Reg::Nr32)
        } else if discrim == 0xFF1D {
            Ok(Reg::Nr33)
        } else if discrim == 0xFF1E {
            Ok(Reg::Nr34)
        } else if discrim == 0xFF20 {
            Ok(Reg::Nr41)
        } else if discrim == 0xFF21 {
            Ok(Reg::Nr42)
        } else if discrim == 0xFF22 {
            Ok(Reg::Nr43)
        } else if discrim == 0xFF23 {
            Ok(Reg::Nr44)
        } else if discrim == 0xFF24 {
            Ok(Reg::Nr50)
        } else if discrim == 0xFF25 {
            Ok(Reg::Nr51)
        } else if discrim == 0xFF26 {
            Ok(Reg::Nr52)
        } else if discrim == 0xFF30 {
            Ok(Reg::Wave0)
        } else if discrim == 0xFF31 {
            Ok(Reg::Wave1)
        } else if discrim == 0xFF32 {
            Ok(Reg::Wave2)
        } else if discrim == 0xFF33 {
            Ok(Reg::Wave3)
        } else if discrim == 0xFF34 {
            Ok(Reg::Wave4)
        } else if discrim == 0xFF35 {
            Ok(Reg::Wave5)
        } else if discrim == 0xFF36 {
            Ok(Reg::Wave6)
        } else if discrim == 0xFF37 {
            Ok(Reg::Wave7)
        } else if discrim == 0xFF38 {
            Ok(Reg::Wave8)
        } else if discrim == 0xFF39 {
            Ok(Reg::Wave9)
        } else if discrim == 0xFF3A {
            Ok(Reg::WaveA)
        } else if discrim == 0xFF3B {
            Ok(Reg::WaveB)
        } else if discrim == 0xFF3C {
            Ok(Reg::WaveC)
        } else if discrim == 0xFF3D {
            Ok(Reg::WaveD)
        } else if discrim == 0xFF3E {
            Ok(Reg::WaveE)
        } else if discrim == 0xFF3F {
            Ok(Reg::WaveF)
        } else {
            Err(discrim)
        }
    }
}

/// The register at the address `discrim`; the address itself where no
/// register is.
pub open spec fn reg_at(discrim: u16) -> Result<Reg, u16> {
    if discrim == 0xFF04 {
        Ok(Reg::Div)
    } else if discrim == 0xFF10 {
        Ok(Reg::Nr10)
    } else if discrim == 0xFF11 {
        Ok(Reg::Nr11)
    } else if discrim == 0xFF12 {
        Ok(Reg::Nr12)
    } else if discrim == 0xFF13 {
        Ok(Reg::Nr13)
    } else if discrim == 0xFF14 {
        Ok(Reg::Nr14)
    } else if discrim == 0xFF16 {
        Ok(Reg::Nr21)
    } else if discrim == 0xFF17 {
        Ok(Reg::Nr22)
    } else if discrim == 0xFF18 {
        Ok(Reg::Nr23)
    } else if discrim == 0xFF19 {
        Ok(Reg::Nr24)
    } else if discrim == 0xFF1A {
        Ok(Reg::Nr30)
    } else if discrim == 0xFF1B {
        Ok(Reg::Nr31)
    } else if discrim == 0xFF1C {
        Ok(Reg::Nr32)
    } else if discrim == 0xFF1D {
        Ok(Reg::Nr33)
    } else if discrim == 0xFF1E {
        Ok(Reg::Nr34)
    } else if discrim == 0xFF20 {
        Ok(Reg::Nr41)
    } else if discrim == 0xFF21 {
        Ok(Reg::Nr42)
    } else if discrim == 0xFF22 {
        Ok(Reg::Nr43)
    } else if discrim == 0xFF23 {
        Ok(Reg::Nr44)
    } else if discrim == 0xFF24 {
        Ok(Reg::Nr50)
    } else if discrim == 0xFF25 {
        Ok(Reg::Nr51)
    } else if discrim == 0xFF26 {
        Ok(Reg::Nr52)
    } else if discrim == 0xFF30 {
        Ok(Reg::Wave0)
    } else if discrim == 0xFF31 {
        Ok(Reg::Wave1)
    } else if discrim == 0xFF32 {
        Ok(Reg::Wave2)
    } else if discrim == 0xFF33 {
        Ok(Reg::Wave3)
    } else if discrim == 0xFF34 {
        Ok(Reg::Wave4)
    } else if discrim == 0xFF35 {
        Ok(Reg::Wave5)
    } else if discrim == 0xFF36 {
        Ok(Reg::Wave6)
    } else if discrim == 0xFF37 {
        Ok(Reg::Wave7)
    } else if discrim == 0xFF38 {
        Ok(Reg::Wave8)
    } else if discrim == 0xFF39 {
        Ok(Reg::Wave9)
    } else if discrim == 0xFF3A {
        Ok(Reg::WaveA)
    } else if discrim == 0xFF3B {
        Ok(Reg::WaveB)
    } else if discrim == 0xFF3C {
        Ok(Reg::WaveC)
    } else if discrim == 0xFF3D {
        Ok(Reg::WaveD)
    } else if discrim == 0xFF3E {
        Ok(Reg::WaveE)
    } else if discrim == 0xFF3F {
        Ok(Reg::WaveF)
    } else {
        Err(discrim)
    }
}

/// `reg_at` finds a register by its address and nothing else.
pub proof fn lemma_reg_at(discrim: u16, reg: Reg)
    ensures
        reg_at(reg.spec_addr()) == Ok::<Reg, u16>(reg),
        reg_at(discrim) == Ok::<Reg, u16>(reg) ==> reg.spec_addr() == discrim,
        reg_at(discrim) is Err ==> reg.spec_addr() != discrim,
{
}

/// One write of a log.
#[derive(Debug, PartialEq, Eq)]
pub struct RegWrite {
    /// Cycles since the write before.
    pub delta: u32,
    pub reg: Reg,
    pub value: u8,
}

/// Why a line of a log is no write.
#[derive(Debug)]
pub enum RegWriteParseErr {
    /// There is no white space between the delta and the write.
    NoWhitespace,
    /// The delta is no hexadecimal number of 32 bits.
    BadDelta(ParseIntError),
    /// The write has no `=`.
    BadWrite,
    /// The register is no hexadecimal number of 16 bits.
    BadReg(ParseIntError),
    /// The value is no hexadecimal number of 8 bits.
    BadValue(ParseIntError),
}

/// Which part of a line is at fault.
#[derive(Debug, Clone, Copy, PartialEq, Eq, Structural)]
pub enum LineFault {
    NoWhitespace,
    BadDelta,
    BadWrite,
    BadReg,
    BadValue,
}

impl RegWriteParseErr {
    /// Which part of the line is at fault.
    pub open spec fn spec_fault(&self) -> LineFault {
        match self {
            RegWriteParseErr::NoWhitespace => LineFault::NoWhitespace,
            RegWriteParseErr::BadDelta(_) => LineFault::BadDelta,
            RegWriteParseErr::BadWrite => LineFault::BadWrite,
            RegWriteParseErr::BadReg(_) => LineFault::BadReg,
            RegWriteParseErr::BadValue(_) => LineFault::BadValue,
        }
    }

    /// Which part of the line is at fault.
    #[verifier::when_used_as_spec(spec_fault)]
    pub fn fault(&self) -> (r: LineFault)
        ensures
            r == self.spec_fault(),
    {
        match self {
            RegWriteParseErr::NoWhitespace => LineFault::NoWhitespace,
            RegWriteParseErr::BadDelta(_) => LineFault::BadDelta,
            RegWriteParseErr::BadWrite => LineFault::BadWrite,
            RegWriteParseErr::BadReg(_) => LineFault::BadReg,
            RegWriteParseErr::BadValue(_) => LineFault::BadValue,
        }
    }
}

/// What a line says, by the grammar of the log.
///
/// The first white space ends the delta, which may have white space before
/// it. Behind it, the first `=` parts the register, which may have white
/// space behind it, from the value, which may have white space on both
/// sides. The three numbers are hexadecimal, of 32, 16 and 8 bits. The parts
/// are checked in this order: the white space, the delta, the `=`, the
/// register, the value. A line whose register is none that a log can name is
/// well formed and says nothing.
pub open spec fn parsed_line(s: Seq<char>) -> Result<Option<(u32, Reg, u8)>, LineFault> {
    let len = s.len() as int;
    let space = space_from(s, 0);
    let delta = hex_up_to(s.subrange(skip_spaces(s, 0, space), space), u32::MAX as nat);
    let eq = char_from(s, '=', space + 1);
    let reg = hex_up_to(s.subrange(space + 1, cut_spaces(s, space + 1, eq)), u16::MAX as nat);
    let value_start = skip_spaces(s, eq + 1, len);
    let value = hex_up_to(
        s.subrange(value_start, cut_spaces(s, value_start, len)),
        u8::MAX as nat,
    );
    if space >= len {
        Err(LineFault::NoWhitespace)
    } else if delta is None {
        Err(LineFault::BadDelta)
    } else if eq >= len {
        Err(LineFault::BadWrite)
    } else if reg is None {
        Err(LineFault::BadReg)
    } else if value is None {
        Err(LineFault::BadValue)
    } else {
        match reg_at(reg.unwrap() as u16) {
            Ok(reg) => Ok(Some((delta.unwrap() as u32, reg, value.unwrap() as u8))),
            Err(_) => Ok(None),
        }
    }
}

impl RegWrite {
    /// Reads one line of a log: see `parsed_line`.
    pub fn try_parse(s: &str) -> (r: Result<Option<Self>, RegWriteParseErr>)
        ensures
            match r {
                Ok(Some(write)) => parsed_line(s@) == Ok::<Option<(u32, Reg, u8)>, LineFault>(
                    Some((write.delta, write.reg, write.value)),
                ),
                Ok(None) => parsed_line(s@) == Ok::<Option<(u32, Reg, u8)>, LineFault>(None),
                Err(err) => parsed_line(s@) == Err::<Option<(u32, Reg, u8)>, LineFault>(
                    err.spec_fault(),
                ),
            },
    {
        let len: usize = s.unicode_len();
        let space: usize = find_space(s, 0, len);
        if space >= len {
            return Err(RegWriteParseErr::NoWhitespace);
        }
        let delta_start: usize = trim_start(s, 0, space);
        let delta: u32 = match hex_u32(s.substring_char(delta_start, space)) {
            Ok(delta) => delta,
            Err(err) => {
                return Err(RegWriteParseErr::BadDelta(err));
            },
        };
        let eq: usize = find_char(s, '=', space + 1, len);
        if eq >= len {
            return Err(RegWriteParseErr::BadWrite);
        }
        let reg_end: usize = trim_end(s, space + 1, eq);
        let reg: u16 = match hex_u16(s.substring_char(space + 1, reg_end)) {
            Ok(reg) => reg,
            Err(err) => {
                return Err(RegWriteParseErr::BadReg(err));
            },
        };
        let value_start: usize = trim_start(s, eq + 1, len);
        let value_end: usize = trim_end(s, value_start, len);
        let value: u8 = match hex_u8(s.substring_char(value_start, value_end)) {
            Ok(value) => value,
            Err(err) => {
                return Err(RegWriteParseErr::BadValue(err));
            },
        };
        Ok(
            match Reg::from_discriminant(reg) {
                Ok(reg) => Some(RegWrite { delta, reg, value }),
                Err(_) => None,
            },
        )
    }

    /// The register and the value of the write.
    pub fn write_info(&self) -> (r: (Reg, u8))
        ensures
            r == (self.reg, self.value),
    {
        (self.reg, self.value)
    }
}

/// A log of writes, in order.
#[derive(Debug)]
pub struct RegLog {
    pub writes: Vec<RegWrite>,
}

impl RegLog {
    /// The log of `writes`.
    pub fn new(writes: Vec<RegWrite>) -> (r: Self)
        ensures
            r.writes == writes,
    {
        Self { writes }
    }
}

} // verus!

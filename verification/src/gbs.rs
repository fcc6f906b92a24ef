//! The GBS container: a fixed 0x70-byte header in front of the ROM image.

use vstd::prelude::*;
use vstd::slice::slice_subrange;

verus! {

/// Length of the header; the ROM image follows it.
pub const HEADER_LEN: usize = 0x70;

/// Lowest address a driver may be loaded at.
pub const MIN_ROM_ADDR: u16 = 0x400;

/// The three entry points that the header names.
#[derive(Debug, Clone, Copy, PartialEq, Eq, Structural)]
pub enum AddressKind {
    Load,
    Init,
    Play,
}

impl AddressKind {
    /// Offset of this address in the header.
    pub open spec fn spec_ofs(&self) -> usize {
        match self {
            AddressKind::Load => 6,
            AddressKind::Init => 8,
            AddressKind::Play => 10,
        }
    }

    /// Offset of this address in the header.
    #[verifier::when_used_as_spec(spec_ofs)]
    pub fn ofs(&self) -> (r: usize)
        ensures
            r == self.spec_ofs(),
    {
        match self {
            AddressKind::Load => 6,
            AddressKind::Init => 8,
            AddressKind::Play => 10,
        }
    }
}

/// Why a blob is not a GBS file that can be simulated.
#[derive(Debug)]
pub enum FormatError<'a> {
    /// The blob is shorter than a header; the payload is its length.
    TruncatedHeader(usize),
    /// The first three bytes, which are not `GBS`.
    BadMagic(&'a [u8]),
    /// The version byte, which is not 1.
    UnsupportedVersion(u8),
    /// The header announces no song at all.
    ZeroSongs,
    /// An entry point outside the range allowed for it.
    BadAddress(AddressKind, u16),
}

/// What a `FormatError` says, with the offending bytes as a sequence.
pub enum HeaderFault {
    TruncatedHeader(nat),
    BadMagic(Seq<u8>),
    UnsupportedVersion(u8),
    ZeroSongs,
    BadAddress(AddressKind, u16),
}

impl<'a> View for FormatError<'a> {
    type V = HeaderFault;

    open spec fn view(&self) -> HeaderFault {
        match self {
            FormatError::TruncatedHeader(len) => HeaderFault::TruncatedHeader(*len as nat),
            FormatError::BadMagic(magic) => HeaderFault::BadMagic(magic@),
            FormatError::UnsupportedVersion(v) => HeaderFault::UnsupportedVersion(*v),
            FormatError::ZeroSongs => HeaderFault::ZeroSongs,
            FormatError::BadAddress(kind, addr) => HeaderFault::BadAddress(*kind, *addr),
        }
    }
}

/// The little-endian 16-bit number at `ofs`.
pub open spec fn le16(bytes: Seq<u8>, ofs: int) -> u16
    recommends
        0 <= ofs,
        ofs + 1 < bytes.len(),
{
    (bytes[ofs] as int + 256 * (bytes[ofs + 1] as int)) as u16
}

/// The bytes `GBS`.
pub open spec fn magic() -> Seq<u8> {
    seq![0x47u8, 0x42u8, 0x53u8]
}

/// The first reason, in the order of the checks, for which `bytes` is
/// refused; `None` for an acceptable file.
pub open spec fn header_fault(bytes: Seq<u8>) -> Option<HeaderFault> {
    let load = le16(bytes, 6);
    let init = le16(bytes, 8);
    let play = le16(bytes, 10);
    if bytes.len() < HEADER_LEN {
        Some(HeaderFault::TruncatedHeader(bytes.len()))
    } else if bytes.subrange(0, 3) != magic() {
        Some(HeaderFault::BadMagic(bytes.subrange(0, 3)))
    } else if bytes[3] != 1 {
        Some(HeaderFault::UnsupportedVersion(bytes[3]))
    } else if bytes[4] == 0 {
        Some(HeaderFault::ZeroSongs)
    } else if !(MIN_ROM_ADDR <= load <= 0x4000) {
        Some(HeaderFault::BadAddress(AddressKind::Load, load))
    } else if !(load <= init < 0x8000) {
        Some(HeaderFault::BadAddress(AddressKind::Init, init))
    } else if !(load <= play < 0x8000) {
        Some(HeaderFault::BadAddress(AddressKind::Play, play))
    } else {
        None
    }
}

/// The timer's divider bit that the two low bits of the control byte select.
pub open spec fn div_bit_of(ctrl: u8) -> u8 {
    let sel = ctrl & 3;
    if sel == 0 {
        9
    } else if sel == 1 {
        3
    } else if sel == 2 {
        5
    } else {
        7
    }
}

/// A GBS file whose header has been checked.
#[derive(Debug)]
pub struct Gbs<'gbs>(&'gbs [u8]);

impl<'gbs> View for Gbs<'gbs> {
    type V = Seq<u8>;

    /// The whole file, header included.
    closed spec fn view(&self) -> Seq<u8> {
        self.0@
    }
}

impl<'gbs> Gbs<'gbs> {
    #[verifier::type_invariant]
    spec fn checked(&self) -> bool {
        header_fault(self.0@) is None
    }

    /// Checks the header of `data`, and refuses the file for the first check
    /// that fails.
    pub fn new(data: &'gbs [u8]) -> (r: Result<Self, FormatError<'gbs>>)
        ensures
            match r {
                Ok(gbs) => header_fault(data@) is None && gbs@ == data@,
                Err(err) => header_fault(data@) == Some(err@),
            },
    {
        if data.len() < HEADER_LEN {
            return Err(FormatError::TruncatedHeader(data.len()));
        }
        let found = slice_subrange(data, 0, 3);
        if found[0] != 0x47 || found[1] != 0x42 || found[2] != 0x53 {
            return Err(FormatError::BadMagic(found));
        }
        assert(data@.subrange(0, 3) =~= magic());
        let version: u8 = data[3];
        if version != 1 {
            return Err(FormatError::UnsupportedVersion(version));
        }
        if data[4] == 0 {
            return Err(FormatError::ZeroSongs);
        }
        let load_addr: u16 = read16_at(data, AddressKind::Load.ofs());
        if load_addr < MIN_ROM_ADDR || load_addr > 0x4000 {
            return Err(FormatError::BadAddress(AddressKind::Load, load_addr));
        }
        let init_addr: u16 = read16_at(data, AddressKind::Init.ofs());
        if init_addr < load_addr || init_addr >= 0x8000 {
            return Err(FormatError::BadAddress(AddressKind::Init, init_addr));
        }
        let play_addr: u16 = read16_at(data, AddressKind::Play.ofs());
        if play_addr < load_addr || play_addr >= 0x8000 {
            return Err(FormatError::BadAddress(AddressKind::Play, play_addr));
        }
        Ok(Gbs(data))
    }

    /// The whole file; its header passes every check.
    pub fn as_bytes(&self) -> (r: &'gbs [u8])
        ensures
            r@ == self@,
            header_fault(self@) is None,
    {
        proof {
            use_type_invariant(self);
        }
        self.0
    }

    /// The little-endian 16-bit number at `ofs` in the header.
    pub fn read16(&self, ofs: usize) -> (r: u16)
        requires
            ofs + 1 < HEADER_LEN,
        ensures
            r == le16(self@, ofs as int),
    {
        proof {
            use_type_invariant(self);
        }
        read16_at(self.0, ofs)
    }

    /// How many songs the file holds; at least one.
    pub fn nb_songs(&self) -> (r: u8)
        ensures
            r == self@[4],
            r >= 1,
    {
        proof {
            use_type_invariant(self);
        }
        self.0[4]
    }

    /// The number of the song to play by default.
    pub fn first_song(&self) -> (r: u8)
        ensures
            r == self@[5],
    {
        proof {
            use_type_invariant(self);
        }
        self.0[5]
    }

    /// One of the three entry points.
    pub fn addr(&self, kind: AddressKind) -> (r: u16)
        ensures
            r == le16(self@, kind.spec_ofs() as int),
            kind == AddressKind::Load ==> MIN_ROM_ADDR <= r <= 0x4000,
            kind != AddressKind::Load ==> le16(self@, 6) <= r < 0x8000,
    {
        proof {
            use_type_invariant(self);
        }
        self.read16(kind.ofs())
    }

    /// The stack pointer that the routines are entered with.
    pub fn stack_ptr(&self) -> (r: u16)
        ensures
            r == le16(self@, 12),
    {
        self.read16(12)
    }

    /// The timer's modulo.
    pub fn timer_mod(&self) -> (r: u8)
        ensures
            r == self@[14],
    {
        proof {
            use_type_invariant(self);
        }
        self.0[14]
    }

    /// The bit of the divider that clocks the timer: 9, 3, 5 or 7.
    pub fn timer_div_bit(&self) -> (r: u8)
        ensures
            r == div_bit_of(self@[15]),
            r == 9 || r == 3 || r == 5 || r == 7,
    {
        let sel: u8 = self.timer_ctrl() & 3;
        if sel == 0 {
            9
        } else if sel == 1 {
            3
        } else if sel == 2 {
            5
        } else {
            7
        }
    }

    /// Whether the play routine is paced by the timer, not by the screen.
    pub fn use_timer(&self) -> (r: bool)
        ensures
            r == (self@[15] & 4 != 0),
    {
        self.timer_ctrl() & 4 != 0
    }

    /// Whether the file asks for the double-speed mode.
    pub fn double_speed(&self) -> (r: bool)
        ensures
            r == (self@[15] & 0x80 != 0),
    {
        self.timer_ctrl() & 0x80 != 0
    }

    /// The timer's control byte.
    pub fn timer_ctrl(&self) -> (r: u8)
        ensures
            r == self@[15],
    {
        proof {
            use_type_invariant(self);
        }
        self.0[15]
    }

    /// The ROM image: everything behind the header.
    pub fn rom(&self) -> (r: &[u8])
        ensures
            r@ == self@.subrange(HEADER_LEN as int, self@.len() as int),
    {
        proof {
            use_type_invariant(self);
        }
        slice_subrange(self.0, HEADER_LEN, self.0.len())
    }
}

/// The little-endian 16-bit number at `ofs` in `data`.
fn read16_at(data: &[u8], ofs: usize) -> (r: u16)
    requires
        ofs + 1 < data@.len(),
    ensures
        r == le16(data@, ofs as int),
{
    let lo: u16 = data[ofs] as u16;
    let hi: u16 = data[ofs + 1] as u16;
    hi * 256 + lo
}

/// A header that passes has its entry points where a driver can live, and at
/// least one song.
pub proof fn lemma_accepted_header_bounds(bytes: Seq<u8>)
    requires
        header_fault(bytes) is None,
    ensures
        bytes.len() >= HEADER_LEN,
        0x400 <= le16(bytes, 6) <= 0x4000,
        le16(bytes, 6) <= le16(bytes, 8) < 0x8000,
        le16(bytes, 6) <= le16(bytes, 10) < 0x8000,
        bytes[4] >= 1,
{
}

/// Every control byte selects one of the four divider bits.
pub proof fn lemma_div_bit_values(ctrl: u8)
    ensures
        div_bit_of(ctrl) == 9 || div_bit_of(ctrl) == 3 || div_bit_of(ctrl) == 5 || div_bit_of(
            ctrl,
        ) == 7,
{
}

} // verus!

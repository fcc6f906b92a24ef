//! The records that simulation and comparison produce: when something
//! happened, where the program counter was, how severe it is.

use vstd::prelude::*;

verus! {

/// A point in simulated time.
///
/// Tick 0 is the "init" phase; every call of the play routine starts a new
/// tick, and `cycle` counts from the start of the tick.
#[derive(Debug, Clone, Copy, PartialEq, Eq, Structural)]
pub struct Timestamp {
    pub tick: u64,
    pub cycle: u16,
}

impl Timestamp {
    /// Lexicographic order on (tick, cycle): `self` is not later than `other`.
    pub open spec fn le(self, other: Timestamp) -> bool {
        self.tick < other.tick || (self.tick == other.tick && self.cycle <= other.cycle)
    }

    /// Whether `self` is not later than `other`.
    pub fn not_after(&self, other: &Timestamp) -> (r: bool)
        ensures
            r == self.le(*other),
    {
        self.tick < other.tick || (self.tick == other.tick && self.cycle <= other.cycle)
    }
}

/// A location in the address space, as (ROM bank, offset).
///
/// The bank only means something while the offset lies in the banked window,
/// 0x4000 to 0x7FFF.
#[derive(Debug, Clone, Copy, PartialEq, Eq, Structural)]
pub struct Address(pub u8, pub u16);

impl Address {
    /// The bank that the offset is looked up in: the stored bank inside the
    /// banked window, bank 0 everywhere else.
    pub open spec fn spec_shown_bank(self) -> u8 {
        if 0x4000 <= self.1 <= 0x7FFF {
            self.0
        } else {
            0
        }
    }

    /// The bank that the offset is looked up in.
    #[verifier::when_used_as_spec(spec_shown_bank)]
    pub fn shown_bank(self) -> (r: u8)
        ensures
            r == self.spec_shown_bank(),
    {
        if 0x4000 <= self.1 && self.1 <= 0x7FFF {
            self.0
        } else {
            0
        }
    }
}

/// How severe a diagnostic is. The most severe level comes first.
#[derive(Debug, Clone, Copy, PartialEq, Eq, PartialOrd, Ord, Structural)]
pub enum DiagnosticLevel {
    Error,
    Warning,
    Note,
}

impl DiagnosticLevel {
    /// Position in the order `Error < Warning < Note`.
    pub open spec fn spec_rank(self) -> u8 {
        match self {
            DiagnosticLevel::Error => 0,
            DiagnosticLevel::Warning => 1,
            DiagnosticLevel::Note => 2,
        }
    }

    /// Position in the order `Error < Warning < Note`.
    #[verifier::when_used_as_spec(spec_rank)]
    pub fn rank(self) -> (r: u8)
        ensures
            r == self.spec_rank(),
    {
        match self {
            DiagnosticLevel::Error => 0,
            DiagnosticLevel::Warning => 1,
            DiagnosticLevel::Note => 2,
        }
    }

    /// A diagnostic of level `self` is kept under the threshold `max`: it is
    /// at least as severe.
    pub open spec fn spec_passes(self, max: DiagnosticLevel) -> bool {
        self.spec_rank() <= max.spec_rank()
    }

    /// Whether a diagnostic of this level is kept under the threshold `max`.
    #[verifier::when_used_as_spec(spec_passes)]
    pub fn passes(self, max: DiagnosticLevel) -> (r: bool)
        ensures
            r == self.spec_passes(max),
    {
        self.rank() <= max.rank()
    }
}

/// Something worth reporting, found at a time and a place.
#[derive(Debug, PartialEq, Eq)]
pub struct Diagnostic<K> {
    pub when: Timestamp,
    pub pc: Address,
    pub level: DiagnosticLevel,
    pub kind: K,
}

/// The level order is total: of two levels, one passes under the other.
pub proof fn lemma_level_order_total(a: DiagnosticLevel, b: DiagnosticLevel)
    ensures
        a.spec_passes(b) || b.spec_passes(a),
        a.spec_passes(b) && b.spec_passes(a) ==> a == b,
        a.spec_passes(a),
        DiagnosticLevel::Error.spec_passes(a),
        a.spec_passes(DiagnosticLevel::Note),
{
}

/// The time order is a total preorder that is antisymmetric.
pub proof fn lemma_time_order(a: Timestamp, b: Timestamp, c: Timestamp)
    ensures
        a.le(a),
        a.le(b) || b.le(a),
        a.le(b) && b.le(a) ==> a == b,
        a.le(b) && b.le(c) ==> a.le(c),
{
}

} // verus!

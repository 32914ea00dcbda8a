//! Intake subsystem: stage selection, hood solenoids and ring color sorting.

use vstd::prelude::*;

verus! {

/// Position of the intake hood.
#[derive(Clone, Copy, Debug, PartialEq, Eq, Structural)]
pub enum HoodPosition {
    High,
    Half,
    Closed,
}

impl Default for HoodPosition {
    /// The hood starts closed.
    fn default() -> (r: HoodPosition)
        ensures
            r == HoodPosition::Closed,
    {
        HoodPosition::Closed
    }
}

/// Game element color.
#[derive(Clone, Copy, Debug, PartialEq, Eq, Structural)]
pub enum ElementColor {
    /// Reject blue rings.
    Blue,
    /// Reject red rings.
    Red,
}

/// Levels of the two hood solenoids.
#[derive(Clone, Copy, Debug, PartialEq, Eq, Structural)]
pub struct HoodLevels {
    /// Level of the lower hood solenoid.
    pub hood_low: bool,
    /// Level of the upper hood solenoid.
    pub hood_high: bool,
}

/// The solenoid levels that put the hood in `position`.
pub open spec fn hood_levels_spec(position: HoodPosition) -> HoodLevels {
    match position {
        HoodPosition::Closed => HoodLevels { hood_low: false, hood_high: false },
        HoodPosition::Half => HoodLevels { hood_low: true, hood_high: false },
        HoodPosition::High => HoodLevels { hood_low: false, hood_high: true },
    }
}

/// The solenoid levels that put the hood in `position`.
pub fn hood_levels(position: HoodPosition) -> (r: HoodLevels)
    ensures
        r == hood_levels_spec(position),
{
    match position {
        HoodPosition::Closed => HoodLevels { hood_low: false, hood_high: false },
        HoodPosition::Half => HoodLevels { hood_low: true, hood_high: false },
        HoodPosition::High => HoodLevels { hood_low: false, hood_high: true },
    }
}

/// A set of intake stages, one bit each.
#[derive(Clone, Copy, Debug, PartialEq, Eq, Structural)]
pub struct IntakeStage {
    /// The stage bits; only the low four are ever set.
    pub bits: u8,
}

/// Bit of the front bottom stage.
pub const FRONT_BOTTOM: u8 = 1;

/// Bit of the back bottom stage.
pub const BACK_BOTTOM: u8 = 2;

/// Bit of the back top stage.
pub const BACK_TOP: u8 = 4;

/// Bit of the front top stage.
pub const FRONT_TOP: u8 = 8;

/// Every stage bit.
pub const ALL_STAGES: u8 = 15;

impl IntakeStage {
    /// Only the four stage bits are set.
    pub open spec fn wf(self) -> bool {
        self.bits <= ALL_STAGES
    }

    /// The stages whose bits are set in `bits`; other bits are dropped.
    pub fn from_bits_truncate(bits: u8) -> (r: IntakeStage)
        ensures
            r.bits == bits & ALL_STAGES,
            r.wf(),
    {
        assert(bits & 15u8 <= 15u8) by (bit_vector);
        IntakeStage { bits: bits & ALL_STAGES }
    }

    /// No stage.
    pub fn empty() -> (r: IntakeStage)
        ensures
            r.bits == 0,
            r.wf(),
    {
        IntakeStage { bits: 0 }
    }

    /// Every stage.
    pub fn all() -> (r: IntakeStage)
        ensures
            r.bits == ALL_STAGES,
            r.wf(),
    {
        IntakeStage { bits: ALL_STAGES }
    }

    /// Whether every stage of `other` is in this set.
    pub fn contains(self, other: IntakeStage) -> (r: bool)
        ensures
            r == (self.bits & other.bits == other.bits),
    {
        self.bits & other.bits == other.bits
    }

    /// The stages in either set.
    pub fn union(self, other: IntakeStage) -> (r: IntakeStage)
        requires
            self.wf(),
            other.wf(),
        ensures
            r.bits == self.bits | other.bits,
            r.wf(),
    {
        let a = self.bits;
        let b = other.bits;
        assert(a | b <= 15u8) by (bit_vector)
            requires
                a <= 15u8,
                b <= 15u8,
        ;
        IntakeStage { bits: a | b }
    }

    /// The stages in exactly one of the two sets.
    pub fn symmetric_difference(self, other: IntakeStage) -> (r: IntakeStage)
        requires
            self.wf(),
            other.wf(),
        ensures
            r.bits == self.bits ^ other.bits,
            r.wf(),
    {
        let a = self.bits;
        let b = other.bits;
        assert(a ^ b <= 15u8) by (bit_vector)
            requires
                a <= 15u8,
                b <= 15u8,
        ;
        IntakeStage { bits: a ^ b }
    }
}

} // verus!

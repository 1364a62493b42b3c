//! DualShock 4 button components.
//!
//! A report's button word packs twelve independent button bits together with
//! a four-bit d-pad sub-field in its low nibble.  Button bits accumulate
//! monotonically on a builder; the d-pad sub-field is the one non-orthogonal
//! part of the format and is always cleared before a new direction is set.

use vstd::prelude::*;

verus! {

/// DS4 button flags, accumulated one pressed button at a time.
///
/// The raw value is the 16-bit button word of a report: bits 4 to 15 are one
/// button each and bits 0 to 3 hold the d-pad direction as a
/// [`DpadDirection`] code.  Builder calls only ever add button bits, so a
/// chain of calls describes the set of buttons pressed for one report.
#[derive(Copy, Clone, Debug, Eq, PartialEq, Structural)]
pub struct DS4Buttons(pub u16);

impl DS4Buttons {
    /// Thumb right button (R3).
    pub const THUMB_RIGHT: u16 = 0x8000;
    /// Thumb left button (L3).
    pub const THUMB_LEFT: u16 = 0x4000;
    /// Options button.
    pub const OPTIONS: u16 = 0x2000;
    /// Share button.
    pub const SHARE: u16 = 0x1000;
    /// Trigger right button (R2).
    pub const TRIGGER_RIGHT: u16 = 0x0800;
    /// Trigger left button (L2).
    pub const TRIGGER_LEFT: u16 = 0x0400;
    /// Shoulder right button (R1).
    pub const SHOULDER_RIGHT: u16 = 0x0200;
    /// Shoulder left button (L1).
    pub const SHOULDER_LEFT: u16 = 0x0100;
    /// Triangle button.
    pub const TRIANGLE: u16 = 0x0080;
    /// Circle button.
    pub const CIRCLE: u16 = 0x0040;
    /// Cross button.
    pub const CROSS: u16 = 0x0020;
    /// Square button.
    pub const SQUARE: u16 = 0x0010;

    /// Create a new value with no button pressed and the d-pad neutral.
    pub fn new() -> (r: Self)
        ensures
            r.0 == DpadDirection::Neutral.bits_spec(),
    {
        DS4Buttons(0x8)
    }

    /// Set the thumb right button state.
    pub fn thumb_right(self, enable: bool) -> (r: Self)
        ensures
            r.0 == if enable { self.0 | DS4Buttons::THUMB_RIGHT } else { self.0 },
    {
        if enable { DS4Buttons(self.0 | DS4Buttons::THUMB_RIGHT) } else { self }
    }

    /// Set the thumb left button state.
    pub fn thumb_left(self, enable: bool) -> (r: Self)
        ensures
            r.0 == if enable { self.0 | DS4Buttons::THUMB_LEFT } else { self.0 },
    {
        if enable { DS4Buttons(self.0 | DS4Buttons::THUMB_LEFT) } else { self }
    }

    /// Set the options button state.
    pub fn options(self, enable: bool) -> (r: Self)
        ensures
            r.0 == if enable { self.0 | DS4Buttons::OPTIONS } else { self.0 },
    {
        if enable { DS4Buttons(self.0 | DS4Buttons::OPTIONS) } else { self }
    }

    /// Set the share button state.
    pub fn share(self, enable: bool) -> (r: Self)
        ensures
            r.0 == if enable { self.0 | DS4Buttons::SHARE } else { self.0 },
    {
        if enable { DS4Buttons(self.0 | DS4Buttons::SHARE) } else { self }
    }

    /// Set the trigger left button state.
    pub fn trigger_left(self, enable: bool) -> (r: Self)
        ensures
            r.0 == if enable { self.0 | DS4Buttons::TRIGGER_LEFT } else { self.0 },
    {
        if enable { DS4Buttons(self.0 | DS4Buttons::TRIGGER_LEFT) } else { self }
    }

    /// Set the trigger right button state.
    pub fn trigger_right(self, enable: bool) -> (r: Self)
        ensures
            r.0 == if enable { self.0 | DS4Buttons::TRIGGER_RIGHT } else { self.0 },
    {
        if enable { DS4Buttons(self.0 | DS4Buttons::TRIGGER_RIGHT) } else { self }
    }

    /// Set the shoulder right button state.
    pub fn shoulder_right(self, enable: bool) -> (r: Self)
        ensures
            r.0 == if enable { self.0 | DS4Buttons::SHOULDER_RIGHT } else { self.0 },
    {
        if enable { DS4Buttons(self.0 | DS4Buttons::SHOULDER_RIGHT) } else { self }
    }

    /// Set the shoulder left button state.
    pub fn shoulder_left(self, enable: bool) -> (r: Self)
        ensures
            r.0 == if enable { self.0 | DS4Buttons::SHOULDER_LEFT } else { self.0 },
    {
        if enable { DS4Buttons(self.0 | DS4Buttons::SHOULDER_LEFT) } else { self }
    }

    /// Set the triangle button state.
    pub fn triangle(self, enable: bool) -> (r: Self)
        ensures
            r.0 == if enable { self.0 | DS4Buttons::TRIANGLE } else { self.0 },
    {
        if enable { DS4Buttons(self.0 | DS4Buttons::TRIANGLE) } else { self }
    }

    /// Set the circle button state.
    pub fn circle(self, enable: bool) -> (r: Self)
        ensures
            r.0 == if enable { self.0 | DS4Buttons::CIRCLE } else { self.0 },
    {
        if enable { DS4Buttons(self.0 | DS4Buttons::CIRCLE) } else { self }
    }

    /// Set the cross button state.
    pub fn cross(self, enable: bool) -> (r: Self)
        ensures
            r.0 == if enable { self.0 | DS4Buttons::CROSS } else { self.0 },
    {
        if enable { DS4Buttons(self.0 | DS4Buttons::CROSS) } else { self }
    }

    /// Set the square button state.
    pub fn square(self, enable: bool) -> (r: Self)
        ensures
            r.0 == if enable { self.0 | DS4Buttons::SQUARE } else { self.0 },
    {
        if enable { DS4Buttons(self.0 | DS4Buttons::SQUARE) } else { self }
    }

    /// Set the d-pad direction.
    ///
    /// Directions are a four-bit code, not one bit each, so the old code is
    /// cleared out of the low nibble before the new one is put in; the twelve
    /// button bits are untouched.
    pub fn dpad(self, dpad: DpadDirection) -> (r: Self)
        ensures
            r.0 == dpad_set(self.0, dpad),
    {
        let d = dpad.bits();
        proof {
            dpad.lemma_bits_spec_range();
        }
        DS4Buttons((self.0 & 0xFFF0) | d)
    }
}

impl Default for DS4Buttons {
    /// The neutral button word: nothing pressed, d-pad neutral.
    fn default() -> (r: Self)
        ensures
            r.0 == DpadDirection::Neutral.bits_spec(),
    {
        DS4Buttons::new()
    }
}

/// The button word `bits` with its d-pad sub-field replaced by direction `d`.
pub open spec fn dpad_set(bits: u16, d: DpadDirection) -> u16 {
    (bits & 0xFFF0) | d.bits_spec()
}

/// Setting a d-pad direction overrides any earlier direction and nothing
/// else: however the button word `bits` was built, and whatever direction
/// `d1` it held, setting `d2` leaves every non-d-pad bit of `bits` unchanged
/// and makes the d-pad sub-field exactly `d2`'s code.
pub proof fn lemma_dpad_last_direction_wins(bits: u16, d1: DpadDirection, d2: DpadDirection)
    ensures
        dpad_set(dpad_set(bits, d1), d2) == dpad_set(bits, d2),
        dpad_set(bits, d2) & 0xFFF0 == bits & 0xFFF0,
        dpad_set(bits, d2) & 0xF == d2.bits_spec(),
{
    let v1 = d1.bits_spec();
    let v2 = d2.bits_spec();
    d1.lemma_bits_spec_range();
    d2.lemma_bits_spec_range();
    assert((((bits & 0xFFF0) | v1) & 0xFFF0) | v2 == (bits & 0xFFF0) | v2) by (bit_vector)
        requires
            v1 <= 8,
    ;
    assert(((bits & 0xFFF0) | v2) & 0xFFF0 == bits & 0xFFF0) by (bit_vector)
        requires
            v2 <= 8,
    ;
    assert(((bits & 0xFFF0) | v2) & 0xF == v2) by (bit_vector)
        requires
            v2 <= 8,
    ;
}

/// Direction of the d-pad.
///
/// The nine codes (eight compass directions and neutral) share the low
/// nibble of the button word, so they cannot be combined by OR; use
/// [`DS4Buttons::dpad`] to set one.
#[derive(Copy, Clone, Debug, Eq, PartialEq, Structural)]
pub enum DpadDirection {
    /// D-pad north direction.
    North,
    /// D-pad north-east direction.
    NorthEast,
    /// D-pad east direction.
    East,
    /// D-pad south-east direction.
    SouthEast,
    /// D-pad south direction.
    South,
    /// D-pad south-west direction.
    SouthWest,
    /// D-pad west direction.
    West,
    /// D-pad north-west direction.
    NorthWest,
    /// D-pad neutral position.
    Neutral,
}

impl DpadDirection {
    /// The four-bit wire code of this direction.
    pub open spec fn bits_spec(self) -> u16 {
        match self {
            DpadDirection::North => 0x0,
            DpadDirection::NorthEast => 0x1,
            DpadDirection::East => 0x2,
            DpadDirection::SouthEast => 0x3,
            DpadDirection::South => 0x4,
            DpadDirection::SouthWest => 0x5,
            DpadDirection::West => 0x6,
            DpadDirection::NorthWest => 0x7,
            DpadDirection::Neutral => 0x8,
        }
    }

    /// Every direction code fits in the d-pad's four-bit sub-field.
    pub proof fn lemma_bits_spec_range(self)
        ensures
            self.bits_spec() <= 8,
    {
    }

    /// The wire code of this direction, as the low nibble of a button word.
    pub fn bits(self) -> (r: u16)
        ensures
            r == self.bits_spec(),
    {
        match self {
            DpadDirection::North => 0x0,
            DpadDirection::NorthEast => 0x1,
            DpadDirection::East => 0x2,
            DpadDirection::SouthEast => 0x3,
            DpadDirection::South => 0x4,
            DpadDirection::SouthWest => 0x5,
            DpadDirection::West => 0x6,
            DpadDirection::NorthWest => 0x7,
            DpadDirection::Neutral => 0x8,
        }
    }

    /// The direction a four-bit wire code stands for, if it is one.
    pub open spec fn from_bits_spec(v: u16) -> Option<DpadDirection> {
        if v == 0x0 {
            Some(DpadDirection::North)
        } else if v == 0x1 {
            Some(DpadDirection::NorthEast)
        } else if v == 0x2 {
            Some(DpadDirection::East)
        } else if v == 0x3 {
            Some(DpadDirection::SouthEast)
        } else if v == 0x4 {
            Some(DpadDirection::South)
        } else if v == 0x5 {
            Some(DpadDirection::SouthWest)
        } else if v == 0x6 {
            Some(DpadDirection::West)
        } else if v == 0x7 {
            Some(DpadDirection::NorthWest)
        } else if v == 0x8 {
            Some(DpadDirection::Neutral)
        } else {
            None
        }
    }

    /// Decode a four-bit wire code back into a direction.
    pub fn try_from_bits(v: u16) -> (r: Option<DpadDirection>)
        ensures
            r == DpadDirection::from_bits_spec(v),
    {
        if v == 0x0 {
            Some(DpadDirection::North)
        } else if v == 0x1 {
            Some(DpadDirection::NorthEast)
        } else if v == 0x2 {
            Some(DpadDirection::East)
        } else if v == 0x3 {
            Some(DpadDirection::SouthEast)
        } else if v == 0x4 {
            Some(DpadDirection::South)
        } else if v == 0x5 {
            Some(DpadDirection::SouthWest)
        } else if v == 0x6 {
            Some(DpadDirection::West)
        } else if v == 0x7 {
            Some(DpadDirection::NorthWest)
        } else if v == 0x8 {
            Some(DpadDirection::Neutral)
        } else {
            None
        }
    }
}

/// Every direction decodes back to itself: the d-pad code is round-trip safe.
pub proof fn lemma_dpad_code_round_trip(d: DpadDirection)
    ensures
        DpadDirection::from_bits_spec(d.bits_spec()) == Some(d),
{
}

/// DS4 special button flags.
///
/// The raw value is the report's special-button byte: three low bits, one
/// per button, accumulated the same way as [`DS4Buttons`].
#[derive(Copy, Clone, Debug, Eq, PartialEq, Structural)]
pub struct DS4SpecialButtons(pub u8);

impl DS4SpecialButtons {
    /// Microphone mute button.
    pub const MIC_MUTE: u8 = 0x4;
    /// Touchpad click.
    pub const TOUCHPAD: u8 = 0x2;
    /// PS home button.
    pub const PS_HOME: u8 = 0x1;

    /// Create a new value with no special button pressed.
    pub fn new() -> (r: Self)
        ensures
            r.0 == 0,
    {
        DS4SpecialButtons(0)
    }

    /// Set the mic mute button state.
    pub fn mic_mute(self, enable: bool) -> (r: Self)
        ensures
            r.0 == if enable { self.0 | DS4SpecialButtons::MIC_MUTE } else { self.0 },
    {
        if enable { DS4SpecialButtons(self.0 | DS4SpecialButtons::MIC_MUTE) } else { self }
    }

    /// Set the touchpad button state.
    pub fn touchpad(self, enable: bool) -> (r: Self)
        ensures
            r.0 == if enable { self.0 | DS4SpecialButtons::TOUCHPAD } else { self.0 },
    {
        if enable { DS4SpecialButtons(self.0 | DS4SpecialButtons::TOUCHPAD) } else { self }
    }

    /// Set the PS home button state.
    pub fn ps_home(self, enable: bool) -> (r: Self)
        ensures
            r.0 == if enable { self.0 | DS4SpecialButtons::PS_HOME } else { self.0 },
    {
        if enable { DS4SpecialButtons(self.0 | DS4SpecialButtons::PS_HOME) } else { self }
    }
}

impl Default for DS4SpecialButtons {
    /// The neutral special-button byte: nothing pressed.
    fn default() -> (r: Self)
        ensures
            r.0 == 0,
    {
        DS4SpecialButtons::new()
    }
}

} // verus!

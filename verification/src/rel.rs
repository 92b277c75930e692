//! Relative axes: mouse motion, wheels and dials.

use vstd::prelude::*;

verus! {

/// A change along one relative axis.
#[derive(Clone, Copy, Debug, PartialEq, Eq, Structural)]
pub struct RelEvent {
    pub axis: RelAxis,
    pub value: i32,
}

/// A relative axis.  The set is closed; raw codes identify each member.
#[derive(Clone, Copy, Debug, PartialEq, Eq, Structural)]
pub enum RelAxis {
    X,
    Y,
    Z,
    Rx,
    Ry,
    Rz,
    HWheel,
    Dial,
    Wheel,
    Misc,
    WheelHiRes,
    HWheelHiRes,
}

impl RelAxis {
    /// The raw event code of this axis.
    pub open spec fn code(self) -> u16 {
        match self {
            RelAxis::X => 0,
            RelAxis::Y => 1,
            RelAxis::Z => 2,
            RelAxis::Rx => 3,
            RelAxis::Ry => 4,
            RelAxis::Rz => 5,
            RelAxis::HWheel => 6,
            RelAxis::Dial => 7,
            RelAxis::Wheel => 8,
            RelAxis::Misc => 9,
            RelAxis::WheelHiRes => 11,
            RelAxis::HWheelHiRes => 12,
        }
    }

    /// The axis a raw event code names, if any.
    pub open spec fn of_code(code: u16) -> Option<RelAxis> {
        match code {
            0u16 => Some(RelAxis::X),
            1u16 => Some(RelAxis::Y),
            2u16 => Some(RelAxis::Z),
            3u16 => Some(RelAxis::Rx),
            4u16 => Some(RelAxis::Ry),
            5u16 => Some(RelAxis::Rz),
            6u16 => Some(RelAxis::HWheel),
            7u16 => Some(RelAxis::Dial),
            8u16 => Some(RelAxis::Wheel),
            9u16 => Some(RelAxis::Misc),
            11u16 => Some(RelAxis::WheelHiRes),
            12u16 => Some(RelAxis::HWheelHiRes),
            _ => None,
        }
    }

    /// Axis named by a raw code, or `None` for a code outside the closed set.
    pub fn from_raw(code: u16) -> (r: Option<RelAxis>)
        ensures
            r == RelAxis::of_code(code),
    {
        match code {
            0 => Some(RelAxis::X),
            1 => Some(RelAxis::Y),
            2 => Some(RelAxis::Z),
            3 => Some(RelAxis::Rx),
            4 => Some(RelAxis::Ry),
            5 => Some(RelAxis::Rz),
            6 => Some(RelAxis::HWheel),
            7 => Some(RelAxis::Dial),
            8 => Some(RelAxis::Wheel),
            9 => Some(RelAxis::Misc),
            11 => Some(RelAxis::WheelHiRes),
            12 => Some(RelAxis::HWheelHiRes),
            _ => None,
        }
    }

    /// Raw code of this axis; total on the closed set.
    pub fn to_raw(&self) -> (r: Option<u16>)
        ensures
            r == Some(self.code()),
    {
        let code: u16 = match self {
            RelAxis::X => 0,
            RelAxis::Y => 1,
            RelAxis::Z => 2,
            RelAxis::Rx => 3,
            RelAxis::Ry => 4,
            RelAxis::Rz => 5,
            RelAxis::HWheel => 6,
            RelAxis::Dial => 7,
            RelAxis::Wheel => 8,
            RelAxis::Misc => 9,
            RelAxis::WheelHiRes => 11,
            RelAxis::HWheelHiRes => 12,
        };

        Some(code)
    }
}

/// Every relative axis round-trips through its raw code.
pub proof fn lemma_rel_axis_code_round_trip(axis: RelAxis)
    ensures
        RelAxis::of_code(axis.code()) == Some(axis),
{
}

/// A raw code names at most one relative axis.
pub proof fn lemma_rel_axis_code_sound(code: u16)
    ensures
        RelAxis::of_code(code) matches Some(axis) ==> axis.code() == code,
{
}

} // verus!

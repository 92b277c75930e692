//! Absolute axes: tablets, touch surfaces, joysticks.

use vstd::prelude::*;

verus! {

/// A change on an absolute axis, or a change of the active tool type on a
/// multitouch device.
#[derive(Clone, Copy, Debug, PartialEq, Eq, Structural)]
pub enum AbsEvent {
    Axis { axis: AbsAxis, value: i32 },
    MtToolType { value: ToolType },
}

/// An absolute axis.  The set is closed; raw codes identify each member.
#[derive(Clone, Copy, Debug, PartialEq, Eq, Structural)]
pub enum AbsAxis {
    X,
    Y,
    Z,
    Rx,
    Ry,
    Rz,
    Throttle,
    Rudder,
    Wheel,
    Gas,
    Brake,
    Hat0X,
    Hat0Y,
    Hat1X,
    Hat1Y,
    Hat2X,
    Hat2Y,
    Hat3X,
    Hat3Y,
    Pressure,
    Distance,
    TiltX,
    TiltY,
    ToolWidth,
    Volume,
    Profile,
    Misc,
    MtSlot,
    MtTouchMajor,
    MtTouchMinor,
    MtWidthMajor,
    MtWidthMinor,
    MtOrientation,
    MtPositionX,
    MtPositionY,
    MtBlobId,
    MtTrackingId,
    MtPressure,
    MtDistance,
    MtToolX,
    MtToolY,
}

/// The range and precision of one absolute axis.
#[derive(Clone, Copy, Debug, PartialEq, Eq, Structural)]
pub struct AbsInfo {
    pub min: i32,
    pub max: i32,
    pub fuzz: i32,
    pub flat: i32,
    pub resolution: i32,
}

/// The tool a multitouch contact reports.
#[derive(Clone, Copy, Debug, PartialEq, Eq, Structural)]
pub enum ToolType {
    Finger,
    Pen,
    Palm,
    Dial,
}

impl AbsAxis {
    /// The raw event code of this axis.
    pub open spec fn code(self) -> u16 {
        match self {
            AbsAxis::X => 0x00,
            AbsAxis::Y => 0x01,
            AbsAxis::Z => 0x02,
            AbsAxis::Rx => 0x03,
            AbsAxis::Ry => 0x04,
            AbsAxis::Rz => 0x05,
            AbsAxis::Throttle => 0x06,
            AbsAxis::Rudder => 0x07,
            AbsAxis::Wheel => 0x08,
            AbsAxis::Gas => 0x09,
            AbsAxis::Brake => 0x0a,
            AbsAxis::Hat0X => 0x10,
            AbsAxis::Hat0Y => 0x11,
            AbsAxis::Hat1X => 0x12,
            AbsAxis::Hat1Y => 0x13,
            AbsAxis::Hat2X => 0x14,
            AbsAxis::Hat2Y => 0x15,
            AbsAxis::Hat3X => 0x16,
            AbsAxis::Hat3Y => 0x17,
            AbsAxis::Pressure => 0x18,
            AbsAxis::Distance => 0x19,
            AbsAxis::TiltX => 0x1a,
            AbsAxis::TiltY => 0x1b,
            AbsAxis::ToolWidth => 0x1c,
            AbsAxis::Volume => 0x20,
            AbsAxis::Profile => 0x21,
            AbsAxis::Misc => 0x28,
            AbsAxis::MtSlot => 0x2f,
            AbsAxis::MtTouchMajor => 0x30,
            AbsAxis::MtTouchMinor => 0x31,
            AbsAxis::MtWidthMajor => 0x32,
            AbsAxis::MtWidthMinor => 0x33,
            AbsAxis::MtOrientation => 0x34,
            AbsAxis::MtPositionX => 0x35,
            AbsAxis::MtPositionY => 0x36,
            AbsAxis::MtBlobId => 0x37,
            AbsAxis::MtTrackingId => 0x38,
            AbsAxis::MtPressure => 0x39,
            AbsAxis::MtDistance => 0x3a,
            AbsAxis::MtToolX => 0x3b,
            AbsAxis::MtToolY => 0x3c,
        }
    }

    /// The axis a raw event code names, if any.
    pub open spec fn of_code(code: u16) -> Option<AbsAxis> {
        match code {
            0x00u16 => Some(AbsAxis::X),
            0x01u16 => Some(AbsAxis::Y),
            0x02u16 => Some(AbsAxis::Z),
            0x03u16 => Some(AbsAxis::Rx),
            0x04u16 => Some(AbsAxis::Ry),
            0x05u16 => Some(AbsAxis::Rz),
            0x06u16 => Some(AbsAxis::Throttle),
            0x07u16 => Some(AbsAxis::Rudder),
            0x08u16 => Some(AbsAxis::Wheel),
            0x09u16 => Some(AbsAxis::Gas),
            0x0au16 => Some(AbsAxis::Brake),
            0x10u16 => Some(AbsAxis::Hat0X),
            0x11u16 => Some(AbsAxis::Hat0Y),
            0x12u16 => Some(AbsAxis::Hat1X),
            0x13u16 => Some(AbsAxis::Hat1Y),
            0x14u16 => Some(AbsAxis::Hat2X),
            0x15u16 => Some(AbsAxis::Hat2Y),
            0x16u16 => Some(AbsAxis::Hat3X),
            0x17u16 => Some(AbsAxis::Hat3Y),
            0x18u16 => Some(AbsAxis::Pressure),
            0x19u16 => Some(AbsAxis::Distance),
            0x1au16 => Some(AbsAxis::TiltX),
            0x1bu16 => Some(AbsAxis::TiltY),
            0x1cu16 => Some(AbsAxis::ToolWidth),
            0x20u16 => Some(AbsAxis::Volume),
            0x21u16 => Some(AbsAxis::Profile),
            0x28u16 => Some(AbsAxis::Misc),
            0x2fu16 => Some(AbsAxis::MtSlot),
            0x30u16 => Some(AbsAxis::MtTouchMajor),
            0x31u16 => Some(AbsAxis::MtTouchMinor),
            0x32u16 => Some(AbsAxis::MtWidthMajor),
            0x33u16 => Some(AbsAxis::MtWidthMinor),
            0x34u16 => Some(AbsAxis::MtOrientation),
            0x35u16 => Some(AbsAxis::MtPositionX),
            0x36u16 => Some(AbsAxis::MtPositionY),
            0x37u16 => Some(AbsAxis::MtBlobId),
            0x38u16 => Some(AbsAxis::MtTrackingId),
            0x39u16 => Some(AbsAxis::MtPressure),
            0x3au16 => Some(AbsAxis::MtDistance),
            0x3bu16 => Some(AbsAxis::MtToolX),
            0x3cu16 => Some(AbsAxis::MtToolY),
            _ => None,
        }
    }

    /// Axis named by a raw code, or `None` for a code outside the closed set.
    pub fn from_raw(code: u16) -> (r: Option<AbsAxis>)
        ensures
            r == AbsAxis::of_code(code),
    {
        match code {
            0x00 => Some(AbsAxis::X),
            0x01 => Some(AbsAxis::Y),
            0x02 => Some(AbsAxis::Z),
            0x03 => Some(AbsAxis::Rx),
            0x04 => Some(AbsAxis::Ry),
            0x05 => Some(AbsAxis::Rz),
            0x06 => Some(AbsAxis::Throttle),
            0x07 => Some(AbsAxis::Rudder),
            0x08 => Some(AbsAxis::Wheel),
            0x09 => Some(AbsAxis::Gas),
            0x0a => Some(AbsAxis::Brake),
            0x10 => Some(AbsAxis::Hat0X),
            0x11 => Some(AbsAxis::Hat0Y),
            0x12 => Some(AbsAxis::Hat1X),
            0x13 => Some(AbsAxis::Hat1Y),
            0x14 => Some(AbsAxis::Hat2X),
            0x15 => Some(AbsAxis::Hat2Y),
            0x16 => Some(AbsAxis::Hat3X),
            0x17 => Some(AbsAxis::Hat3Y),
            0x18 => Some(AbsAxis::Pressure),
            0x19 => Some(AbsAxis::Distance),
            0x1a => Some(AbsAxis::TiltX),
            0x1b => Some(AbsAxis::TiltY),
            0x1c => Some(AbsAxis::ToolWidth),
            0x20 => Some(AbsAxis::Volume),
            0x21 => Some(AbsAxis::Profile),
            0x28 => Some(AbsAxis::Misc),
            0x2f => Some(AbsAxis::MtSlot),
            0x30 => Some(AbsAxis::MtTouchMajor),
            0x31 => Some(AbsAxis::MtTouchMinor),
            0x32 => Some(AbsAxis::MtWidthMajor),
            0x33 => Some(AbsAxis::MtWidthMinor),
            0x34 => Some(AbsAxis::MtOrientation),
            0x35 => Some(AbsAxis::MtPositionX),
            0x36 => Some(AbsAxis::MtPositionY),
            0x37 => Some(AbsAxis::MtBlobId),
            0x38 => Some(AbsAxis::MtTrackingId),
            0x39 => Some(AbsAxis::MtPressure),
            0x3a => Some(AbsAxis::MtDistance),
            0x3b => Some(AbsAxis::MtToolX),
            0x3c => Some(AbsAxis::MtToolY),
            _ => None,
        }
    }

    /// Raw code of this axis; total on the closed set.
    pub fn to_raw(&self) -> (r: Option<u16>)
        ensures
            r == Some(self.code()),
    {
        let code: u16 = match self {
            AbsAxis::X => 0x00,
            AbsAxis::Y => 0x01,
            AbsAxis::Z => 0x02,
            AbsAxis::Rx => 0x03,
            AbsAxis::Ry => 0x04,
            AbsAxis::Rz => 0x05,
            AbsAxis::Throttle => 0x06,
            AbsAxis::Rudder => 0x07,
            AbsAxis::Wheel => 0x08,
            AbsAxis::Gas => 0x09,
            AbsAxis::Brake => 0x0a,
            AbsAxis::Hat0X => 0x10,
            AbsAxis::Hat0Y => 0x11,
            AbsAxis::Hat1X => 0x12,
            AbsAxis::Hat1Y => 0x13,
            AbsAxis::Hat2X => 0x14,
            AbsAxis::Hat2Y => 0x15,
            AbsAxis::Hat3X => 0x16,
            AbsAxis::Hat3Y => 0x17,
            AbsAxis::Pressure => 0x18,
            AbsAxis::Distance => 0x19,
            AbsAxis::TiltX => 0x1a,
            AbsAxis::TiltY => 0x1b,
            AbsAxis::ToolWidth => 0x1c,
            AbsAxis::Volume => 0x20,
            AbsAxis::Profile => 0x21,
            AbsAxis::Misc => 0x28,
            AbsAxis::MtSlot => 0x2f,
            AbsAxis::MtTouchMajor => 0x30,
            AbsAxis::MtTouchMinor => 0x31,
            AbsAxis::MtWidthMajor => 0x32,
            AbsAxis::MtWidthMinor => 0x33,
            AbsAxis::MtOrientation => 0x34,
            AbsAxis::MtPositionX => 0x35,
            AbsAxis::MtPositionY => 0x36,
            AbsAxis::MtBlobId => 0x37,
            AbsAxis::MtTrackingId => 0x38,
            AbsAxis::MtPressure => 0x39,
            AbsAxis::MtDistance => 0x3a,
            AbsAxis::MtToolX => 0x3b,
            AbsAxis::MtToolY => 0x3c,
        };

        Some(code)
    }
}

impl ToolType {
    /// The raw code of this tool type.
    pub open spec fn code(self) -> u16 {
        match self {
            ToolType::Finger => 0,
            ToolType::Pen => 1,
            ToolType::Palm => 2,
            ToolType::Dial => 10,
        }
    }

    /// The tool type a raw code names, if any.
    pub open spec fn of_code(code: u16) -> Option<ToolType> {
        match code {
            0u16 => Some(ToolType::Finger),
            1u16 => Some(ToolType::Pen),
            2u16 => Some(ToolType::Palm),
            10u16 => Some(ToolType::Dial),
            _ => None,
        }
    }

    /// Raw code of this tool type; total on the closed set.
    pub fn to_raw(&self) -> (r: u16)
        ensures
            r == self.code(),
    {
        match self {
            ToolType::Finger => 0,
            ToolType::Pen => 1,
            ToolType::Palm => 2,
            ToolType::Dial => 10,
        }
    }

    /// Tool type named by a raw code, or `None` for a code outside the set.
    pub fn from_raw(code: u16) -> (r: Option<ToolType>)
        ensures
            r == ToolType::of_code(code),
    {
        match code {
            0 => Some(ToolType::Finger),
            1 => Some(ToolType::Pen),
            2 => Some(ToolType::Palm),
            10 => Some(ToolType::Dial),
            _ => None,
        }
    }
}

/// Every absolute axis round-trips through its raw code.
pub proof fn lemma_abs_axis_code_round_trip(axis: AbsAxis)
    ensures
        AbsAxis::of_code(axis.code()) == Some(axis),
{
}

/// A raw code names at most one absolute axis.
pub proof fn lemma_abs_axis_code_sound(code: u16)
    ensures
        AbsAxis::of_code(code) matches Some(axis) ==> axis.code() == code,
{
}

/// Every tool type round-trips through its raw code.
pub proof fn lemma_tool_type_code_round_trip(tool: ToolType)
    ensures
        ToolType::of_code(tool.code()) == Some(tool),
{
}

} // verus!

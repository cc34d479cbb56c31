//! Vocabulary of the register channel: which fields can be read or written,
//! and the shape of a write request.
//!
//! The channel itself lives outside this crate. Every operation here either
//! names the field to transfer or interprets what a transfer returned.

use vstd::prelude::*;
use crate::error::IoctlError;

verus! {

/// One of the wired fans.
#[derive(Clone, Copy, Debug, PartialEq, Eq, Structural)]
pub enum Fan {
    Fan0,
    Fan1,
}

/// Number of fans the register protocol addresses.
pub const FAN_COUNT: u8 = 2;

/// The fan an index names, if it names one.
pub open spec fn fan_at(index: int) -> Option<Fan> {
    if index == 0 {
        Some(Fan::Fan0)
    } else if index == 1 {
        Some(Fan::Fan1)
    } else {
        None
    }
}

impl Fan {
    /// Position of the fan, counted from zero.
    pub open spec fn spec_index(self) -> int {
        match self {
            Fan::Fan0 => 0,
            Fan::Fan1 => 1,
        }
    }

    /// Validates a caller-supplied fan index. Indices that name no wired fan
    /// are reported as an absent device.
    pub fn from_index(index: u8) -> (fan: Result<Fan, IoctlError>)
        ensures
            fan == match fan_at(index as int) {
                Some(f) => Ok::<Fan, IoctlError>(f),
                None => Err(IoctlError::DevNotAvailable),
            },
            fan is Ok <==> index < FAN_COUNT,
    {
        match index {
            0 => Ok(Fan::Fan0),
            1 => Ok(Fan::Fan1),
            _ => Err(IoctlError::DevNotAvailable),
        }
    }

    /// Position of the fan, counted from zero.
    pub fn index(self) -> (index: u8)
        ensures
            index == self.spec_index(),
            index < FAN_COUNT,
            fan_at(index as int) == Some(self),
    {
        match self {
            Fan::Fan0 => 0,
            Fan::Fan1 => 1,
        }
    }
}

/// A field the channel can read. Each read yields one signed 32-bit value.
#[derive(Clone, Copy, Debug, PartialEq, Eq, Structural)]
pub enum ReadField {
    /// Hardware presence check; 1 means present.
    HwCheck,
    /// Opaque numeric model identifier.
    ModelId,
    /// Current raw speed of a fan, 0 to `MAX_FAN_SPEED`.
    FanSpeed(Fan),
    /// Temperature at a fan; 0 means the sensor is not present.
    FanTemp(Fan),
    /// Lowest raw speed the device accepts.
    FansMinSpeed,
    /// Whether the fans can be switched off; 1 means yes.
    FansOffAvailable,
    /// How many leading entries of the profile list the unit supports.
    ProfsAvailable,
}

/// A field the channel can write. Each write carries one unsigned 32-bit
/// value.
#[derive(Clone, Copy, Debug, PartialEq, Eq, Structural)]
pub enum WriteField {
    /// Hardware-managed mode switch, 0 or 1.
    ModeEnable,
    /// Hands fan control back to the firmware; always written with 0.
    FanAuto,
    /// Raw target speed of a fan.
    FanSpeed(Fan),
    /// Code of the performance profile to select.
    PerfProf,
}

/// A write the caller is to perform on the channel.
#[derive(Clone, Copy, Debug, PartialEq, Eq, Structural)]
pub struct WriteCommand {
    pub field: WriteField,
    pub value: u32,
}

} // verus!

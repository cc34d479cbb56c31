//! The Uniwill device: probing, identification, fan control and performance
//! profile negotiation.
//!
//! The register channel is not reached from here. An operation that writes
//! returns the [`WriteCommand`] to perform; an operation that reads takes
//! the outcome of the read as its argument. A transfer that failed is passed
//! in as the `Err` it produced and comes back unchanged.

use vstd::prelude::*;
use crate::decimal::{decimal, render_i32};
use crate::error::IoctlError;
use crate::hal::fan_speed::{
    lemma_round_trip_exact, percent_of_raw, raw_of_percent, to_percent, to_raw,
};
use crate::hal::profile::{are_names_of, profile_named, supported_profiles, PerformanceProfile};
use crate::transport::{fan_at, Fan, ReadField, WriteCommand, WriteField, FAN_COUNT};

verus! {

/// The lowest eight bits of a register value, as an unsigned number.
pub open spec fn low_byte(raw: int) -> int {
    raw % 256
}

/// What a fan speed read means to the caller.
pub open spec fn fan_speed_percent_of(fan: int, raw: Result<i32, IoctlError>) -> Result<
    u8,
    IoctlError,
> {
    match fan_at(fan) {
        None => Err(IoctlError::DevNotAvailable),
        Some(_) => match raw {
            Err(e) => Err(e),
            Ok(v) => Ok(percent_of_raw(v as int) as u8),
        },
    }
}

/// What a fan temperature read means to the caller. A reading of zero is
/// the firmware's way of saying that the sensor is not there.
pub open spec fn fan_temperature_of(fan: int, raw: Result<i32, IoctlError>) -> Result<
    u8,
    IoctlError,
> {
    match fan_at(fan) {
        None => Err(IoctlError::DevNotAvailable),
        Some(_) => match raw {
            Err(e) => Err(e),
            Ok(v) => if v == 0 {
                Err(IoctlError::DevNotAvailable)
            } else {
                Ok(low_byte(v as int) as u8)
            },
        },
    }
}

/// The minimum fan speed a read reports: the value itself where a byte
/// holds it, zero otherwise.
pub open spec fn fans_min_speed_of(raw: Result<i32, IoctlError>) -> Result<u8, IoctlError> {
    match raw {
        Err(e) => Err(e),
        Ok(v) => if 0 <= v <= 255 {
            Ok(v as u8)
        } else {
            Ok(0u8)
        },
    }
}

/// The write that sets a fan to a percentage of full speed.
pub open spec fn fan_speed_command(fan: int, percent: int) -> Result<WriteCommand, IoctlError> {
    match fan_at(fan) {
        None => Err(IoctlError::DevNotAvailable),
        Some(f) => Ok(
            (WriteCommand { field: WriteField::FanSpeed(f), value: raw_of_percent(percent) as u32 }),
        ),
    }
}

/// The write that selects the profile with the given name.
pub open spec fn profile_command(name: Seq<char>) -> Result<WriteCommand, IoctlError> {
    match profile_named(name) {
        None => Err(IoctlError::InvalidArgs),
        Some(p) => Ok((WriteCommand { field: WriteField::PerfProf, value: p.spec_code() as u32 })),
    }
}

/// A probed Uniwill device.
///
/// A value of this type exists only after the presence check has answered
/// that the hardware is there.
#[derive(Clone, Copy, Debug)]
pub struct UniwillHardware {
    num_of_fans: u8,
}

impl UniwillHardware {
    #[verifier::type_invariant]
    spec fn well_formed(&self) -> bool {
        self.num_of_fans == FAN_COUNT
    }

    /// Number of fans of the device.
    pub closed spec fn spec_number_fans(&self) -> int {
        self.num_of_fans as int
    }

    /// Probes for the hardware. `hw_check` is the outcome of reading
    /// [`ReadField::HwCheck`]. The device exists exactly when that read
    /// succeeded with the value 1; anything else, a failed transfer
    /// included, means that the device is not available.
    pub fn init(hw_check: Result<i32, IoctlError>) -> (device: Result<UniwillHardware, IoctlError>)
        ensures
            hw_check == Ok::<i32, IoctlError>(1) ==> device is Ok,
            hw_check != Ok::<i32, IoctlError>(1) ==> device == Err::<UniwillHardware, IoctlError>(
                IoctlError::DevNotAvailable,
            ),
            device matches Ok(hw) ==> hw.spec_number_fans() == FAN_COUNT,
    {
        match hw_check {
            Ok(1) => Ok(UniwillHardware { num_of_fans: FAN_COUNT }),
            _ => Err(IoctlError::DevNotAvailable),
        }
    }

    /// Name of this hardware interface. Needs no transfer.
    pub fn device_interface_id_str(&self) -> (id: Result<String, IoctlError>)
        ensures
            id matches Ok(s) && s@ == "uniwill"@,
    {
        Ok("uniwill".to_owned())
    }

    /// Model identifier as text. `model_id` is the outcome of reading
    /// [`ReadField::ModelId`]; the number is written in decimal.
    pub fn device_model_id_str(&self, model_id: Result<i32, IoctlError>) -> (id: Result<
        String,
        IoctlError,
    >)
        ensures
            match model_id {
                Ok(v) => id matches Ok(s) && s@ == decimal(v as int),
                Err(e) => id matches Err(f) && f == e,
            },
    {
        match model_id {
            Ok(v) => Ok(render_i32(v)),
            Err(e) => Err(e),
        }
    }

    /// The write that switches the hardware-managed mode on or off.
    pub fn set_enable_mode_set(&self, enabled: bool) -> (command: WriteCommand)
        ensures
            command.field == WriteField::ModeEnable,
            command.value == if enabled {
                1u32
            } else {
                0u32
            },
    {
        WriteCommand { field: WriteField::ModeEnable, value: if enabled {
            1
        } else {
            0
        } }
    }

    /// Number of fans of the device.
    pub fn get_number_fans(&self) -> (count: u8)
        ensures
            count == FAN_COUNT,
            count == self.spec_number_fans(),
    {
        proof {
            use_type_invariant(self);
        }
        self.num_of_fans
    }

    /// The write that hands fan control back to the firmware.
    pub fn set_fans_auto(&self) -> (command: WriteCommand)
        ensures
            command == (WriteCommand { field: WriteField::FanAuto, value: 0 }),
    {
        WriteCommand { field: WriteField::FanAuto, value: 0 }
    }

    /// The write that sets fan `fan` to `fan_speed_percent` percent of full
    /// speed. An index that names no wired fan fails with
    /// [`IoctlError::DevNotAvailable`], whatever the percentage, and nothing
    /// is to be written.
    pub fn set_fan_speed_percent(&self, fan: u8, fan_speed_percent: u8) -> (command: Result<
        WriteCommand,
        IoctlError,
    >)
        ensures
            command == fan_speed_command(fan as int, fan_speed_percent as int),
            fan >= FAN_COUNT ==> command == Err::<WriteCommand, IoctlError>(
                IoctlError::DevNotAvailable,
            ),
            fan < FAN_COUNT ==> command is Ok,
    {
        match Fan::from_index(fan) {
            Ok(f) => Ok(
                WriteCommand { field: WriteField::FanSpeed(f), value: to_raw(fan_speed_percent) },
            ),
            Err(e) => Err(e),
        }
    }

    /// The field to read for the speed of fan `fan`, or
    /// [`IoctlError::DevNotAvailable`] if the index names no wired fan.
    pub fn fan_speed_field(&self, fan: u8) -> (field: Result<ReadField, IoctlError>)
        ensures
            field == match fan_at(fan as int) {
                Some(f) => Ok::<ReadField, IoctlError>(ReadField::FanSpeed(f)),
                None => Err(IoctlError::DevNotAvailable),
            },
            field is Ok <==> fan < FAN_COUNT,
    {
        match Fan::from_index(fan) {
            Ok(f) => Ok(ReadField::FanSpeed(f)),
            Err(e) => Err(e),
        }
    }

    /// Speed of fan `fan` in percent. `raw` is the outcome of reading the
    /// field that [`Self::fan_speed_field`] names. An index that names no
    /// wired fan fails with [`IoctlError::DevNotAvailable`] whatever `raw`
    /// holds.
    pub fn get_fan_speed_percent(&self, fan: u8, raw: Result<i32, IoctlError>) -> (percent: Result<
        u8,
        IoctlError,
    >)
        ensures
            percent == fan_speed_percent_of(fan as int, raw),
            fan >= FAN_COUNT ==> percent == Err::<u8, IoctlError>(IoctlError::DevNotAvailable),
    {
        match Fan::from_index(fan) {
            Err(e) => Err(e),
            Ok(_) => match raw {
                Err(e) => Err(e),
                Ok(v) => Ok(to_percent(v)),
            },
        }
    }

    /// The field to read for the temperature at fan `fan`, or
    /// [`IoctlError::DevNotAvailable`] if the index names no wired fan.
    pub fn fan_temperature_field(&self, fan: u8) -> (field: Result<ReadField, IoctlError>)
        ensures
            field == match fan_at(fan as int) {
                Some(f) => Ok::<ReadField, IoctlError>(ReadField::FanTemp(f)),
                None => Err(IoctlError::DevNotAvailable),
            },
            field is Ok <==> fan < FAN_COUNT,
    {
        match Fan::from_index(fan) {
            Ok(f) => Ok(ReadField::FanTemp(f)),
            Err(e) => Err(e),
        }
    }

    /// Temperature at fan `fan`. `raw` is the outcome of reading the field
    /// that [`Self::fan_temperature_field`] names. The firmware reports an
    /// absent sensor as zero, so a reading of zero fails with
    /// [`IoctlError::DevNotAvailable`]; any other reading gives its low
    /// byte.
    pub fn get_fan_temperature(&self, fan: u8, raw: Result<i32, IoctlError>) -> (temperature:
        Result<u8, IoctlError>)
        ensures
            temperature == fan_temperature_of(fan as int, raw),
            fan >= FAN_COUNT ==> temperature == Err::<u8, IoctlError>(IoctlError::DevNotAvailable),
            fan < FAN_COUNT && raw == Ok::<i32, IoctlError>(0) ==> temperature == Err::<
                u8,
                IoctlError,
            >(IoctlError::DevNotAvailable),
            raw matches Ok(v) ==> (fan < FAN_COUNT && 1 <= v <= 255 ==> temperature == Ok::<
                u8,
                IoctlError,
            >(v as u8)),
    {
        match Fan::from_index(fan) {
            Err(e) => Err(e),
            Ok(_) => match raw {
                Err(e) => Err(e),
                Ok(v) => if v == 0 {
                    Err(IoctlError::DevNotAvailable)
                } else {
                    let byte: u8 = #[verifier::truncate] (v as u8);
                    assert(byte as int == (v as int) % 256) by (bit_vector)
                        requires
                            byte == v as u8,
                    ;
                    Ok(byte)
                },
            },
        }
    }

    /// Lowest raw speed the fans accept. `raw` is the outcome of reading
    /// [`ReadField::FansMinSpeed`]. A value that no byte holds, negative or
    /// above 255, is reported as zero rather than as a failure.
    pub fn get_fans_min_speed(&self, raw: Result<i32, IoctlError>) -> (speed: Result<
        u8,
        IoctlError,
    >)
        ensures
            speed == fans_min_speed_of(raw),
    {
        match raw {
            Err(e) => Err(e),
            Ok(v) => if 0 <= v && v <= 255 {
                Ok(v as u8)
            } else {
                Ok(0)
            },
        }
    }

    /// Whether the fans can be switched off. `raw` is the outcome of reading
    /// [`ReadField::FansOffAvailable`]. Only the value 1 means yes; every
    /// other value means no and is not a failure.
    pub fn get_fans_off_available(&self, raw: Result<i32, IoctlError>) -> (available: Result<
        bool,
        IoctlError,
    >)
        ensures
            available == match raw {
                Ok(v) => Ok::<bool, IoctlError>(v == 1),
                Err(e) => Err(e),
            },
    {
        match raw {
            Err(e) => Err(e),
            Ok(v) => Ok(v == 1),
        }
    }

    /// Names of the performance profiles this unit supports, in canonical
    /// order. `raw` is the outcome of reading [`ReadField::ProfsAvailable`],
    /// the number of supported profiles. A unit reports two or three; any
    /// other count means the feature is missing on this unit and fails with
    /// [`IoctlError::DevNotAvailable`].
    pub fn get_available_odm_performance_profiles(&self, raw: Result<i32, IoctlError>) -> (names:
        Result<Vec<String>, IoctlError>)
        ensures
            match raw {
                Err(e) => names matches Err(f) && f == e,
                Ok(count) => match supported_profiles(count as int) {
                    Some(profiles) => names matches Ok(v) && are_names_of(v@, profiles),
                    None => names matches Err(f) && f == IoctlError::DevNotAvailable,
                },
            },
    {
        let count = match raw {
            Err(e) => {
                return Err(e);
            },
            Ok(count) => count,
        };
        let profiles = match PerformanceProfile::supported(count) {
            None => {
                return Err(IoctlError::DevNotAvailable);
            },
            Some(profiles) => profiles,
        };
        let mut names: Vec<String> = Vec::new();
        let mut i: usize = 0;
        while i < profiles.len()
            invariant
                i <= profiles.len(),
                names.len() == i,
                forall|j: int| 0 <= j < i ==> names[j]@ == profiles[j].spec_name(),
            decreases profiles.len() - i,
        {
            names.push(profiles[i].name().to_owned());
            i += 1;
        }
        Ok(names)
    }

    /// The write that selects the profile named `performance_profile`. The
    /// name must be one of the profile names, letter for letter; any other
    /// name fails with [`IoctlError::InvalidArgs`] and nothing is to be
    /// written.
    pub fn set_odm_performance_profile(&self, performance_profile: String) -> (command: Result<
        WriteCommand,
        IoctlError,
    >)
        ensures
            command == profile_command(performance_profile@),
    {
        match PerformanceProfile::from_name(performance_profile.as_str()) {
            Some(profile) => {
                let code: u8 = profile.code();
                Ok(WriteCommand { field: WriteField::PerfProf, value: code as u32 })
            },
            None => Err(IoctlError::InvalidArgs),
        }
    }

    /// This hardware family has no default profile to report.
    pub fn get_default_odm_performance_profile(&self) -> (name: Result<String, IoctlError>)
        ensures
            name matches Err(e) && e == IoctlError::Unimplemented,
    {
        Err(IoctlError::Unimplemented)
    }

    /// This hardware family has no control over thermal design power.
    pub fn get_number_tdps(&self) -> (count: Result<u8, IoctlError>)
        ensures
            count == Err::<u8, IoctlError>(IoctlError::Unimplemented),
    {
        Err(IoctlError::Unimplemented)
    }

    /// This hardware family has no control over thermal design power.
    pub fn get_tdp_descriptors(&self) -> (descriptors: Result<Vec<String>, IoctlError>)
        ensures
            descriptors matches Err(e) && e == IoctlError::Unimplemented,
    {
        Err(IoctlError::Unimplemented)
    }

    /// This hardware family has no control over thermal design power.
    pub fn get_tdp_min(&self, tdp_index: u8) -> (min: Result<u8, IoctlError>)
        ensures
            min == Err::<u8, IoctlError>(IoctlError::Unimplemented),
    {
        Err(IoctlError::Unimplemented)
    }

    /// This hardware family has no control over thermal design power.
    pub fn get_tdp_max(&self, tdp_index: u8) -> (max: Result<u8, IoctlError>)
        ensures
            max == Err::<u8, IoctlError>(IoctlError::Unimplemented),
    {
        Err(IoctlError::Unimplemented)
    }

    /// This hardware family has no control over thermal design power:
    /// nothing is to be written.
    pub fn set_tdp(&self, tdp_index: u8, tdp_value: u8) -> (command: Result<
        WriteCommand,
        IoctlError,
    >)
        ensures
            command == Err::<WriteCommand, IoctlError>(IoctlError::Unimplemented),
    {
        Err(IoctlError::Unimplemented)
    }

    /// This hardware family has no control over thermal design power.
    pub fn get_tdp(&self, tdp_index: u8) -> (tdp: Result<u8, IoctlError>)
        ensures
            tdp == Err::<u8, IoctlError>(IoctlError::Unimplemented),
    {
        Err(IoctlError::Unimplemented)
    }
}

/// A percentage written to a wired fan comes back as the same percentage
/// when the device reports the raw speed it was given.
pub proof fn lemma_written_speed_reads_back(fan: int, percent: int)
    requires
        fan_at(fan) is Some,
        0 <= percent <= 100,
    ensures
        fan_speed_command(fan, percent) matches Ok(command) && fan_speed_percent_of(
            fan,
            Ok(command.value as i32),
        ) == Ok::<u8, IoctlError>(percent as u8),
{
    lemma_round_trip_exact(percent);
}

/// An index that names no wired fan fails every fan operation with
/// "device not available", whatever else is passed.
pub proof fn lemma_unwired_fan_not_available(fan: int, percent: int, raw: Result<i32, IoctlError>)
    requires
        fan_at(fan) is None,
    ensures
        fan_speed_command(fan, percent) == Err::<WriteCommand, IoctlError>(
            IoctlError::DevNotAvailable,
        ),
        fan_speed_percent_of(fan, raw) == Err::<u8, IoctlError>(IoctlError::DevNotAvailable),
        fan_temperature_of(fan, raw) == Err::<u8, IoctlError>(IoctlError::DevNotAvailable),
{
}

/// On a wired fan a temperature reading of zero means "no sensor", and
/// every reading from 1 to 255 is returned as it is.
pub proof fn lemma_temperature_sentinel(fan: int, reading: i32)
    requires
        fan_at(fan) is Some,
    ensures
        reading == 0 ==> fan_temperature_of(fan, Ok(reading)) == Err::<u8, IoctlError>(
            IoctlError::DevNotAvailable,
        ),
        1 <= reading <= 255 ==> fan_temperature_of(fan, Ok(reading)) == Ok::<u8, IoctlError>(
            reading as u8,
        ),
{
}

/// A transfer that failed surfaces with the error it produced, from every
/// reading operation on a wired fan.
pub proof fn lemma_transport_failure_surfaces(fan: int, failure: IoctlError)
    requires
        fan_at(fan) is Some,
    ensures
        fan_speed_percent_of(fan, Err(failure)) == Err::<u8, IoctlError>(failure),
        fan_temperature_of(fan, Err(failure)) == Err::<u8, IoctlError>(failure),
        fans_min_speed_of(Err(failure)) == Err::<u8, IoctlError>(failure),
{
}

} // verus!

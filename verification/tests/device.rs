use tuxedo_ioctl::error::IoctlError;
use tuxedo_ioctl::hal::uniwill::UniwillHardware;
use tuxedo_ioctl::transport::{Fan, ReadField, WriteCommand, WriteField};

fn probed() -> UniwillHardware {
    UniwillHardware::init(Ok(1)).expect("presence check answered 1")
}

#[test]
fn init_succeeds_when_the_presence_check_answers_one() {
    let device = UniwillHardware::init(Ok(1));
    assert!(device.is_ok());
    assert_eq!(device.unwrap().get_number_fans(), 2);
}

#[test]
fn init_fails_for_every_other_answer() {
    for answer in [0, 2, 3, -1, 255, 256, i32::MIN, i32::MAX] {
        let device = UniwillHardware::init(Ok(answer));
        assert_eq!(device.err(), Some(IoctlError::DevNotAvailable), "answer {answer}");
    }
}

#[test]
fn init_fails_when_the_presence_check_cannot_be_read() {
    for failure in [
        IoctlError::Transport(5),
        IoctlError::Transport(-1),
        IoctlError::DevNotAvailable,
        IoctlError::InvalidArgs,
    ] {
        let device = UniwillHardware::init(Err(failure));
        assert_eq!(device.err(), Some(IoctlError::DevNotAvailable));
    }
}

#[test]
fn interface_id_is_constant() {
    assert_eq!(probed().device_interface_id_str(), Ok("uniwill".to_string()));
}

#[test]
fn model_id_is_rendered_in_decimal() {
    let hw = probed();
    assert_eq!(hw.device_model_id_str(Ok(0)), Ok("0".to_string()));
    assert_eq!(hw.device_model_id_str(Ok(1234)), Ok("1234".to_string()));
    assert_eq!(hw.device_model_id_str(Ok(-5)), Ok("-5".to_string()));
    assert_eq!(hw.device_model_id_str(Ok(i32::MAX)), Ok("2147483647".to_string()));
    assert_eq!(hw.device_model_id_str(Ok(i32::MIN)), Ok("-2147483648".to_string()));
}

#[test]
fn model_id_passes_a_failed_transfer_through() {
    let hw = probed();
    assert_eq!(hw.device_model_id_str(Err(IoctlError::Transport(19))), Err(IoctlError::Transport(19)));
}

#[test]
fn enable_mode_writes_one_or_zero() {
    let hw = probed();
    assert_eq!(
        hw.set_enable_mode_set(true),
        WriteCommand { field: WriteField::ModeEnable, value: 1 }
    );
    assert_eq!(
        hw.set_enable_mode_set(false),
        WriteCommand { field: WriteField::ModeEnable, value: 0 }
    );
}

#[test]
fn fans_auto_writes_zero() {
    assert_eq!(probed().set_fans_auto(), WriteCommand { field: WriteField::FanAuto, value: 0 });
}

#[test]
fn number_of_fans_is_two() {
    assert_eq!(probed().get_number_fans(), 2);
}

#[test]
fn set_fan_speed_writes_the_raw_speed_to_the_fan() {
    let hw = probed();
    assert_eq!(
        hw.set_fan_speed_percent(0, 0),
        Ok(WriteCommand { field: WriteField::FanSpeed(Fan::Fan0), value: 0 })
    );
    assert_eq!(
        hw.set_fan_speed_percent(0, 50),
        Ok(WriteCommand { field: WriteField::FanSpeed(Fan::Fan0), value: 100 })
    );
    assert_eq!(
        hw.set_fan_speed_percent(1, 100),
        Ok(WriteCommand { field: WriteField::FanSpeed(Fan::Fan1), value: 0xC8 })
    );
    assert_eq!(
        hw.set_fan_speed_percent(1, 33),
        Ok(WriteCommand { field: WriteField::FanSpeed(Fan::Fan1), value: 66 })
    );
    assert_eq!(
        hw.set_fan_speed_percent(1, 255),
        Ok(WriteCommand { field: WriteField::FanSpeed(Fan::Fan1), value: 510 })
    );
}

#[test]
fn set_fan_speed_rejects_unwired_fans_whatever_the_percentage() {
    let hw = probed();
    for fan in 2..=u8::MAX {
        for percent in [0, 1, 50, 100, 101, 255] {
            assert_eq!(hw.set_fan_speed_percent(fan, percent), Err(IoctlError::DevNotAvailable));
        }
    }
}

#[test]
fn fan_fields_follow_the_fan_index() {
    let hw = probed();
    assert_eq!(hw.fan_speed_field(0), Ok(ReadField::FanSpeed(Fan::Fan0)));
    assert_eq!(hw.fan_speed_field(1), Ok(ReadField::FanSpeed(Fan::Fan1)));
    assert_eq!(hw.fan_temperature_field(0), Ok(ReadField::FanTemp(Fan::Fan0)));
    assert_eq!(hw.fan_temperature_field(1), Ok(ReadField::FanTemp(Fan::Fan1)));
    for fan in 2..=u8::MAX {
        assert_eq!(hw.fan_speed_field(fan), Err(IoctlError::DevNotAvailable));
        assert_eq!(hw.fan_temperature_field(fan), Err(IoctlError::DevNotAvailable));
    }
}

#[test]
fn get_fan_speed_converts_the_raw_reading() {
    let hw = probed();
    assert_eq!(hw.get_fan_speed_percent(0, Ok(0)), Ok(0));
    assert_eq!(hw.get_fan_speed_percent(0, Ok(100)), Ok(50));
    assert_eq!(hw.get_fan_speed_percent(1, Ok(101)), Ok(51));
    assert_eq!(hw.get_fan_speed_percent(1, Ok(0xC8)), Ok(100));
    assert_eq!(hw.get_fan_speed_percent(1, Ok(-4)), Ok(0));
    assert_eq!(hw.get_fan_speed_percent(0, Ok(1000)), Ok(255));
}

#[test]
fn get_fan_speed_rejects_unwired_fans_whatever_was_read() {
    let hw = probed();
    for fan in 2..=u8::MAX {
        assert_eq!(hw.get_fan_speed_percent(fan, Ok(100)), Err(IoctlError::DevNotAvailable));
        assert_eq!(
            hw.get_fan_speed_percent(fan, Err(IoctlError::Transport(5))),
            Err(IoctlError::DevNotAvailable)
        );
    }
}

#[test]
fn get_fan_speed_passes_a_failed_transfer_through() {
    let hw = probed();
    assert_eq!(
        hw.get_fan_speed_percent(0, Err(IoctlError::Transport(5))),
        Err(IoctlError::Transport(5))
    );
    assert_eq!(
        hw.get_fan_speed_percent(1, Err(IoctlError::InvalidArgs)),
        Err(IoctlError::InvalidArgs)
    );
}

#[test]
fn written_fan_speed_reads_back_as_the_same_percentage() {
    let hw = probed();
    for fan in 0..2u8 {
        for percent in 0..=100u8 {
            let command = hw.set_fan_speed_percent(fan, percent).unwrap();
            assert_eq!(hw.get_fan_speed_percent(fan, Ok(command.value as i32)), Ok(percent));
        }
    }
}

#[test]
fn fan_temperature_zero_means_no_sensor() {
    let hw = probed();
    assert_eq!(hw.get_fan_temperature(0, Ok(0)), Err(IoctlError::DevNotAvailable));
    assert_eq!(hw.get_fan_temperature(1, Ok(0)), Err(IoctlError::DevNotAvailable));
}

#[test]
fn fan_temperature_returns_every_byte_from_one_up() {
    let hw = probed();
    for reading in 1..=255i32 {
        assert_eq!(hw.get_fan_temperature(0, Ok(reading)), Ok(reading as u8));
        assert_eq!(hw.get_fan_temperature(1, Ok(reading)), Ok(reading as u8));
    }
}

#[test]
fn fan_temperature_keeps_the_low_byte_of_wider_readings() {
    let hw = probed();
    assert_eq!(hw.get_fan_temperature(0, Ok(256)), Ok(0));
    assert_eq!(hw.get_fan_temperature(0, Ok(257)), Ok(1));
    assert_eq!(hw.get_fan_temperature(0, Ok(0x1234)), Ok(0x34));
    assert_eq!(hw.get_fan_temperature(0, Ok(-1)), Ok(255));
    assert_eq!(hw.get_fan_temperature(0, Ok(-256)), Ok(0));
    assert_eq!(hw.get_fan_temperature(0, Ok(i32::MIN)), Ok(0));
    assert_eq!(hw.get_fan_temperature(0, Ok(i32::MAX)), Ok(255));
}

#[test]
fn fan_temperature_rejects_unwired_fans() {
    let hw = probed();
    for fan in 2..=u8::MAX {
        assert_eq!(hw.get_fan_temperature(fan, Ok(40)), Err(IoctlError::DevNotAvailable));
        assert_eq!(hw.get_fan_temperature(fan, Ok(0)), Err(IoctlError::DevNotAvailable));
        assert_eq!(
            hw.get_fan_temperature(fan, Err(IoctlError::Transport(1))),
            Err(IoctlError::DevNotAvailable)
        );
    }
}

#[test]
fn fan_temperature_passes_a_failed_transfer_through() {
    let hw = probed();
    assert_eq!(
        hw.get_fan_temperature(1, Err(IoctlError::Transport(110))),
        Err(IoctlError::Transport(110))
    );
}

#[test]
fn fans_min_speed_narrows_to_a_byte_or_zero() {
    let hw = probed();
    assert_eq!(hw.get_fans_min_speed(Ok(0)), Ok(0));
    assert_eq!(hw.get_fans_min_speed(Ok(25)), Ok(25));
    assert_eq!(hw.get_fans_min_speed(Ok(255)), Ok(255));
    assert_eq!(hw.get_fans_min_speed(Ok(256)), Ok(0));
    assert_eq!(hw.get_fans_min_speed(Ok(-1)), Ok(0));
    assert_eq!(hw.get_fans_min_speed(Ok(i32::MAX)), Ok(0));
    assert_eq!(hw.get_fans_min_speed(Ok(i32::MIN)), Ok(0));
    assert_eq!(hw.get_fans_min_speed(Err(IoctlError::Transport(2))), Err(IoctlError::Transport(2)));
}

#[test]
fn fans_off_is_available_only_for_a_reading_of_one() {
    let hw = probed();
    assert_eq!(hw.get_fans_off_available(Ok(1)), Ok(true));
    for reading in [0, 2, 3, -1, 255, i32::MIN, i32::MAX] {
        assert_eq!(hw.get_fans_off_available(Ok(reading)), Ok(false));
    }
    assert_eq!(
        hw.get_fans_off_available(Err(IoctlError::Transport(4))),
        Err(IoctlError::Transport(4))
    );
}

#[test]
fn two_profiles_are_power_save_and_enthusiast() {
    let names = probed().get_available_odm_performance_profiles(Ok(2));
    assert_eq!(names, Ok(vec!["power_save".to_string(), "enthusiast".to_string()]));
}

#[test]
fn three_profiles_add_overboost() {
    let names = probed().get_available_odm_performance_profiles(Ok(3));
    assert_eq!(
        names,
        Ok(vec!["power_save".to_string(), "enthusiast".to_string(), "overboost".to_string()])
    );
}

#[test]
fn other_profile_counts_mean_the_feature_is_missing() {
    let hw = probed();
    for count in [0, 1, 4, 5, -1, -2, 255, i32::MIN, i32::MAX] {
        assert_eq!(
            hw.get_available_odm_performance_profiles(Ok(count)),
            Err(IoctlError::DevNotAvailable),
            "count {count}"
        );
    }
}

#[test]
fn available_profiles_pass_a_failed_transfer_through() {
    assert_eq!(
        probed().get_available_odm_performance_profiles(Err(IoctlError::Transport(5))),
        Err(IoctlError::Transport(5))
    );
}

#[test]
fn every_available_profile_can_be_selected() {
    let hw = probed();
    for count in [2, 3] {
        let names = hw.get_available_odm_performance_profiles(Ok(count)).unwrap();
        for (position, name) in names.into_iter().enumerate() {
            assert_eq!(
                hw.set_odm_performance_profile(name),
                Ok(WriteCommand { field: WriteField::PerfProf, value: position as u32 + 1 })
            );
        }
    }
}

#[test]
fn set_profile_overboost_writes_code_three() {
    assert_eq!(
        probed().set_odm_performance_profile("overboost".to_string()),
        Ok(WriteCommand { field: WriteField::PerfProf, value: 3 })
    );
}

#[test]
fn set_profile_writes_the_code_of_the_named_profile() {
    let hw = probed();
    assert_eq!(
        hw.set_odm_performance_profile("power_save".to_string()),
        Ok(WriteCommand { field: WriteField::PerfProf, value: 1 })
    );
    assert_eq!(
        hw.set_odm_performance_profile("enthusiast".to_string()),
        Ok(WriteCommand { field: WriteField::PerfProf, value: 2 })
    );
}

#[test]
fn set_profile_turbo_is_an_invalid_argument_and_writes_nothing() {
    assert_eq!(
        probed().set_odm_performance_profile("turbo".to_string()),
        Err(IoctlError::InvalidArgs)
    );
}

#[test]
fn set_profile_does_not_normalise_names() {
    let hw = probed();
    for name in ["", "balanced", "Power_save", "POWER_SAVE", " enthusiast", "overboost ", "1"] {
        assert_eq!(hw.set_odm_performance_profile(name.to_string()), Err(IoctlError::InvalidArgs));
    }
}

#[test]
fn default_profile_is_unimplemented() {
    assert_eq!(probed().get_default_odm_performance_profile(), Err(IoctlError::Unimplemented));
}

#[test]
fn tdp_control_is_unimplemented() {
    let hw = probed();
    assert_eq!(hw.get_number_tdps(), Err(IoctlError::Unimplemented));
    assert_eq!(hw.get_tdp_descriptors(), Err(IoctlError::Unimplemented));
    for index in [0, 1, 2, 255] {
        assert_eq!(hw.get_tdp_min(index), Err(IoctlError::Unimplemented));
        assert_eq!(hw.get_tdp_max(index), Err(IoctlError::Unimplemented));
        assert_eq!(hw.get_tdp(index), Err(IoctlError::Unimplemented));
        assert_eq!(hw.set_tdp(index, 15), Err(IoctlError::Unimplemented));
    }
}

#[test]
fn unimplemented_differs_from_the_other_failures() {
    assert_ne!(IoctlError::Unimplemented, IoctlError::DevNotAvailable);
    assert_ne!(IoctlError::Unimplemented, IoctlError::InvalidArgs);
    assert_ne!(IoctlError::DevNotAvailable, IoctlError::InvalidArgs);
    assert_ne!(IoctlError::Transport(0), IoctlError::DevNotAvailable);
    assert_ne!(IoctlError::Transport(1), IoctlError::Transport(2));
}

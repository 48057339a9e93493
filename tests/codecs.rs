use mlx9061x::checksum::pec;
use mlx9061x::mlx90614::{Config, Fir, Gain, Iir, PwmMode};
use mlx9061x::mlx90615;
use mlx9061x::{Error, Mlx9061x, NvAction, NvEvent, NvWrite, SlaveAddr};

fn sensor() -> Mlx9061x {
    Mlx9061x::new_mlx90614::<()>(SlaveAddr::Default, 10).unwrap()
}

#[test]
fn pec_of_known_frames() {
    assert_eq!(0, pec(&[]));
    assert_eq!(232, pec(&[0xB4, 0xFF]));
    assert_eq!(172, pec(&[0xB4, 0x25, 0xB5, 0x04, 0x04]));
    assert_eq!(175, pec(&[0xB4, 0x2E, 0, 0]));
}

#[test]
fn temperature_formulas_near_freezing() {
    let t = Mlx9061x::convert_to_temp::<()>(13658).unwrap();
    assert_eq!(13658, t.raw());
    assert_eq!(273160, t.millikelvin());
    assert_eq!(10, t.millicelsius());
    assert_eq!(32018, t.millifahrenheit());
}

#[test]
fn temperature_formulas_at_zero() {
    let t = Mlx9061x::convert_to_temp::<()>(0).unwrap();
    assert_eq!(0, t.millikelvin());
    assert_eq!(-273150, t.millicelsius());
    assert_eq!(-459670, t.millifahrenheit());
}

#[test]
fn temperature_formulas_at_largest_reading() {
    let t = Mlx9061x::convert_to_temp::<()>(0x7FFF).unwrap();
    assert_eq!(655340, t.millikelvin());
    assert_eq!(382190, t.millicelsius());
    assert_eq!(719942, t.millifahrenheit());
}

#[test]
fn fault_bit_gives_bad_read_with_masked_value() {
    match Mlx9061x::convert_to_temp::<()>(0x8123) {
        Err(Error::BadRead(t)) => assert_eq!(0x0123, t.raw()),
        other => panic!("unexpected {:?}", other),
    }
    match Mlx9061x::convert_to_temp::<()>(0x8000) {
        Err(Error::BadRead(t)) => assert_eq!(0, t.raw()),
        other => panic!("unexpected {:?}", other),
    }
}

#[test]
fn fault_bit_through_a_register_read() {
    match sensor().ambient_temperature::<()>([0x23, 0x81, 15]) {
        Err(Error::BadRead(t)) => assert_eq!(0x0123, t.raw()),
        other => panic!("unexpected {:?}", other),
    }
}

#[test]
fn wrong_checksum_discards_the_value() {
    let s = sensor();
    assert!(matches!(
        s.ambient_temperature::<()>([225, 57, 234]),
        Err(Error::ChecksumMismatch)
    ));
    assert!(matches!(
        s.raw_ir_channel1::<()>([0x26, 0x3A, 0x4B]),
        Err(Error::ChecksumMismatch)
    ));
    assert!(matches!(
        s.config_1::<()>([0x04, 0x04, 173]),
        Err(Error::ChecksumMismatch)
    ));
    // the right bytes answered for another register are refused too
    assert!(matches!(
        s.object1_temperature::<()>([225, 57, 233]),
        Err(Error::ChecksumMismatch)
    ));
}

#[test]
fn config_round_trip_over_all_words() {
    for bits in 0..=u16::MAX {
        let c = Config::from_bits(bits);
        assert_eq!(bits, c.as_bits());
        assert_eq!(c, Config::from_bits(c.as_bits()));
    }
}

#[test]
fn config_fields_at_their_offsets() {
    let c = Config {
        iir: Iir::Step57,
        repeat_sensor_selftest: true,
        pwm_mode: PwmMode::Tobj2,
        dual_ir_sensor: false,
        ks_sign_negative: true,
        fir: Fir::Step16,
        gain: Gain::Gain100Alt,
        kt2_sign_negative: false,
        sensor_selftest_disabled: true,
    };
    assert_eq!(0b1011_1001_1010_1111, c.as_bits());
    assert_eq!(c, Config::from_bits(c.as_bits()));
}

#[test]
fn address_validation() {
    assert!(matches!(
        Mlx9061x::new_mlx90614::<()>(SlaveAddr::Alternative(0), 5),
        Err(Error::InvalidInputData)
    ));
    assert!(matches!(
        Mlx9061x::new_mlx90614::<()>(SlaveAddr::Alternative(0x80), 5),
        Err(Error::InvalidInputData)
    ));
    let d = Mlx9061x::new_mlx90614::<()>(SlaveAddr::Alternative(0x7F), 5).unwrap();
    assert_eq!(0x7F, d.address());
    let d = Mlx9061x::new_mlx90614::<()>(SlaveAddr::default(), 5).unwrap();
    assert_eq!(0x5A, d.address());
    let s = sensor();
    assert!(matches!(
        s.set_address::<()>(SlaveAddr::Alternative(0)),
        Err(Error::InvalidInputData)
    ));
    assert!(matches!(
        s.set_address::<()>(SlaveAddr::Alternative(0xFF)),
        Err(Error::InvalidInputData)
    ));
    let seq = s.set_address::<()>(SlaveAddr::Alternative(1)).unwrap();
    assert_eq!(1, seq.value);
    assert!(seq.verify);
}

#[test]
fn eeprom_read_back_mismatch_is_bad_write() {
    let mut seq = sensor().set_address::<()>(SlaveAddr::Alternative(0x5C)).unwrap();
    assert!(matches!(seq.step::<()>(NvEvent::Start), NvAction::Write(_)));
    assert!(matches!(seq.step::<()>(NvEvent::Completed), NvAction::DelayMs(10)));
    assert!(matches!(seq.step::<()>(NvEvent::Completed), NvAction::Write(_)));
    assert!(matches!(seq.step::<()>(NvEvent::Completed), NvAction::DelayMs(10)));
    assert!(matches!(seq.step::<()>(NvEvent::Completed), NvAction::Read(0x2E)));
    // the cell still reads 0x0000, with a valid code
    assert!(matches!(
        seq.step::<()>(NvEvent::ReadBack([0, 0, 110])),
        NvAction::Finished(Err(Error::BadEepromWrite))
    ));
}

#[test]
fn eeprom_read_back_with_bad_code_is_checksum_error() {
    let mut seq = NvWrite::new(0x5A, 0x2E, 0x5C, 0, true);
    for _ in 0..5 {
        let _ = seq.step::<()>(if seq.state == mlx9061x::NvState::Idle {
            NvEvent::Start
        } else {
            NvEvent::Completed
        });
    }
    assert!(matches!(
        seq.step::<()>(NvEvent::ReadBack([0x5C, 0, 157])),
        NvAction::Finished(Err(Error::ChecksumMismatch))
    ));
}

#[test]
fn eeprom_out_of_order_event_aborts() {
    let mut seq = NvWrite::new(0x5A, 0x25, 0x0404, 5, true);
    assert!(matches!(
        seq.step::<()>(NvEvent::Completed),
        NvAction::Finished(Err(Error::InvalidInputData))
    ));
    assert!(matches!(
        seq.step::<()>(NvEvent::Start),
        NvAction::Finished(Err(Error::InvalidInputData))
    ));
}

#[test]
fn emissivity_below_minimum_is_refused() {
    let s = sensor();
    assert!(matches!(
        s.set_emissivity_raw::<()>(6552),
        Err(Error::InvalidInputData)
    ));
    let seq = s.set_emissivity_raw::<()>(6553).unwrap();
    assert!(!seq.verify);
}

#[test]
fn device_id_failures() {
    let s = sensor();
    let short = [[0x34, 0x12, 246], [0x78, 0x56, 156]];
    assert!(matches!(
        s.device_id::<()>(&short),
        Err(Error::InvalidInputData)
    ));
    let bad = [
        [0x34, 0x12, 246],
        [0x78, 0x56, 156],
        [0xBC, 0x9A, 118],
        [0xF0, 0xDE, 31],
    ];
    assert!(matches!(s.device_id::<()>(&bad), Err(Error::ChecksumMismatch)));
}

#[test]
fn mlx90615_variant() {
    let d = Mlx9061x::new_mlx90615::<()>(SlaveAddr::Default, 5).unwrap();
    assert_eq!(mlx90615::DEV_ADDR, d.address());
    let t = d.ambient_temperature::<()>([0x26, 0x3A, 186]).unwrap();
    assert_eq!(24570, t.millicelsius());
    assert!(matches!(
        d.object2_temperature::<()>([0x26, 0x3A, 186]),
        Err(Error::InvalidInputData)
    ));
    assert!(matches!(
        d.config_1::<()>([0, 0, 0]),
        Err(Error::InvalidInputData)
    ));
    assert_eq!(
        0x1234_5678,
        d.device_id::<()>(&[[0x34, 0x12, 6], [0x78, 0x56, 108]]).unwrap()
    );
    assert_eq!(vec![mlx90615::SLEEP_COMMAND, 109], d.sleep_frame());
}

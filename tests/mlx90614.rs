use mlx9061x::mlx90614;
use mlx9061x::mlx90614::{Config, Fir, Gain, Iir, PwmMode, Register as Reg};
use mlx9061x::{Error, Mlx9061x, NvAction, NvEvent, NvWrite, SlaveAddr};

#[derive(Debug, PartialEq)]
enum Step {
    Write(Vec<u8>),
    Delay(u32),
    Read(u8),
}

fn new_mlx90614() -> Mlx9061x {
    Mlx9061x::new_mlx90614::<()>(SlaveAddr::Default, 5).unwrap()
}

/// Runs a write sequence: each write and delay completes at once, and a
/// read-back is answered with `reply`.
fn run(mut seq: NvWrite, reply: [u8; 3]) -> (Vec<Step>, Result<(), Error<()>>) {
    let mut steps = Vec::new();
    let mut event = NvEvent::Start;
    loop {
        match seq.step::<()>(event) {
            NvAction::Write(bytes) => {
                steps.push(Step::Write(bytes));
                event = NvEvent::Completed;
            }
            NvAction::DelayMs(ms) => {
                steps.push(Step::Delay(ms));
                event = NvEvent::Completed;
            }
            NvAction::Read(reg) => {
                steps.push(Step::Read(reg));
                event = NvEvent::ReadBack(reply);
            }
            NvAction::Finished(outcome) => return (steps, outcome),
        }
    }
}

#[test]
fn read_ta1() {
    let t = new_mlx90614().ambient_temperature::<()>([225, 57, 233]).unwrap();
    assert_eq!(23190, t.millicelsius());
}

#[test]
fn read_ta2() {
    let t = new_mlx90614().ambient_temperature::<()>([97, 58, 86]).unwrap();
    assert_eq!(25750, t.millicelsius());
}

#[test]
fn read_ta3() {
    let t = new_mlx90614().ambient_temperature::<()>([107, 58, 212]).unwrap();
    assert_eq!(25950, t.millicelsius());
}

#[test]
fn read_ta4() {
    let t = new_mlx90614().ambient_temperature::<()>([38, 58, 102]).unwrap();
    assert_eq!(24570, t.millicelsius());
}

#[test]
fn read_object1_temp() {
    let t = new_mlx90614().object1_temperature::<()>([38, 58, 112]).unwrap();
    assert_eq!(24570, t.millicelsius());
}

#[test]
fn read_object2_temp() {
    let t = new_mlx90614().object2_temperature::<()>([38, 58, 162]).unwrap();
    assert_eq!(24570, t.millicelsius());
}

#[test]
fn read_ta_as_int() {
    let t = new_mlx90614().ambient_temperature::<()>([0x0, 0x3A, 182]).unwrap();
    assert_eq!(0x3A00, t.raw());
    assert_eq!(0x17, t.millicelsius() / 1000);
}

#[test]
fn read_raw_ir1() {
    let v = new_mlx90614().raw_ir_channel1::<()>([0x26, 0x3A, 0x4A]).unwrap();
    assert_eq!(0x3A26, v);
}

#[test]
fn read_raw_ir2() {
    let v = new_mlx90614().raw_ir_channel2::<()>([0x26, 0x3A, 0x5C]).unwrap();
    assert_eq!(0x3A26, v);
}

#[test]
fn read_emiss() {
    let v = new_mlx90614().emissivity_raw::<()>([51, 179, 36]).unwrap();
    assert_eq!(0xB333, v);
}

#[test]
fn can_change_address() {
    let sensor = new_mlx90614();
    let seq = sensor.set_address::<()>(SlaveAddr::Alternative(0x5C)).unwrap();
    let (steps, outcome) = run(seq, [0x5C, 0, 158]);
    assert_eq!(
        steps,
        vec![
            Step::Write(vec![Reg::ADDRESS, 0, 0, 175]),
            Step::Delay(5),
            Step::Write(vec![Reg::ADDRESS, 0x5C, 0, 95]),
            Step::Delay(5),
            Step::Read(Reg::ADDRESS),
        ]
    );
    assert!(outcome.is_ok());
    // the device keeps the address it was made with
    assert_eq!(mlx90614::DEV_ADDR, sensor.address());
}

#[test]
fn can_set_emissivity() {
    let sensor = new_mlx90614();
    let eps = (0.7f32 * 65535.0 + 0.5) as u16;
    let seq = sensor.set_emissivity_raw::<()>(eps).unwrap();
    let (steps, outcome) = run(seq, [0, 0, 0]);
    assert_eq!(
        steps,
        vec![
            Step::Write(vec![Reg::EMISSIVITY, 0, 0, 40]),
            Step::Delay(5),
            Step::Write(vec![Reg::EMISSIVITY, 51, 179, 254]),
            Step::Delay(5),
        ]
    );
    assert!(outcome.is_ok());
}

#[test]
fn can_get_config_1() {
    let sensor = new_mlx90614();
    // 0x0404 = 0b0000_0100_0000_0100
    let config = sensor.config_1::<()>([0x04, 0x04, 172]).unwrap();
    assert_eq!(
        config,
        Config {
            iir: Iir::Step100, // bits 0-2  = 0b100
            repeat_sensor_selftest: false,
            pwm_mode: PwmMode::TaTobj1,
            dual_ir_sensor: false,
            ks_sign_negative: false,
            fir: Fir::Step128, // bits 8-10 = 0b100
            gain: Gain::Gain1, // bits 11-13 = 0b000
            kt2_sign_negative: false,
            sensor_selftest_disabled: false,
        }
    );
}

#[test]
fn can_set_config_1() {
    let sensor = new_mlx90614();
    // initial value 0x0000
    let mut config = sensor.config_1::<()>([0, 0, 228]).unwrap();
    config.iir = Iir::Step100;
    config.fir = Fir::Step128;
    let seq = sensor.set_config_1::<()>(config).unwrap();
    let (steps, outcome) = run(seq, [4, 4, 172]);
    assert_eq!(
        steps,
        vec![
            Step::Write(vec![Reg::CONFIG_1, 0, 0, 67]),
            Step::Delay(5),
            Step::Write(vec![Reg::CONFIG_1, 4, 4, 11]),
            Step::Delay(5),
            Step::Read(Reg::CONFIG_1),
        ]
    );
    assert!(outcome.is_ok());
}

#[test]
fn can_get_id() {
    let sensor = new_mlx90614();
    let replies = [
        [0x34, 0x12, 246],
        [0x78, 0x56, 156],
        [0xBC, 0x9A, 117],
        [0xF0, 0xDE, 31],
    ];
    assert_eq!(0x1234_5678_9ABC_DEF0, sensor.device_id::<()>(&replies).unwrap());
}

#[test]
fn can_sleep() {
    let sensor = new_mlx90614();
    assert_eq!(vec![mlx90614::SLEEP_COMMAND, 232], sensor.sleep_frame());
}

use mb2_wukong_expansion::bus::mood_lights::{Error, SETTLE_DELAY_MS};
use mb2_wukong_expansion::bus::{BusOp, Error as BusError};
use mb2_wukong_expansion::{MoodLights, WuKongBus};

fn write(bytes: [u8; 4]) -> BusOp {
    BusOp::Write { addr: 0x10, bytes }
}

fn drain(bus: &mut WuKongBus) -> Vec<BusOp> {
    let mut ops = Vec::new();
    while let Some(op) = bus.next_op() {
        ops.push(op);
        bus.op_done(true);
    }
    ops
}

#[test]
fn breath_is_two_writes_with_pause() {
    let mut bus = WuKongBus::new();
    assert_eq!(bus.set_mood_lights(MoodLights::Breath), Ok(()));
    assert_eq!(
        drain(&mut bus),
        vec![write([0x11, 0, 0, 0]), BusOp::DelayMs { ms: 100 }, write([0x12, 150, 0, 0])]
    );
    assert!(SETTLE_DELAY_MS >= 100);
}

#[test]
fn breath_regardless_of_prior_mode() {
    for prior in [MoodLights::Off, MoodLights::Breath, MoodLights::Intensity(30)] {
        let mut bus = WuKongBus::new();
        assert_eq!(bus.set_mood_lights(prior), Ok(()));
        drain(&mut bus);
        assert_eq!(bus.set_mood_lights(MoodLights::Breath), Ok(()));
        assert_eq!(
            drain(&mut bus),
            vec![write([0x11, 0, 0, 0]), BusOp::DelayMs { ms: 100 }, write([0x12, 150, 0, 0])]
        );
    }
}

#[test]
fn intensity_sixty() {
    let mut bus = WuKongBus::new();
    assert_eq!(bus.set_mood_lights(MoodLights::Intensity(60)), Ok(()));
    assert_eq!(
        drain(&mut bus),
        vec![write([0x12, 60, 0, 0]), BusOp::DelayMs { ms: 100 }, write([0x11, 160, 0, 0])]
    );
}

#[test]
fn intensity_bounds() {
    let mut bus = WuKongBus::new();
    assert_eq!(bus.set_mood_lights(MoodLights::Intensity(100)), Ok(()));
    assert_eq!(drain(&mut bus)[0], write([0x12, 100, 0, 0]));
    assert_eq!(bus.set_mood_lights(MoodLights::Intensity(101)), Err(Error::Overintensity(101)));
    assert_eq!(bus.next_op(), None);
}

#[test]
fn intensity_over_limit_writes_nothing() {
    let mut bus = WuKongBus::new();
    assert_eq!(bus.set_mood_lights(MoodLights::Intensity(150)), Err(Error::Overintensity(150)));
    assert_eq!(drain(&mut bus), vec![]);
}

#[test]
fn off_is_intensity_zero() {
    let mut bus = WuKongBus::new();
    assert_eq!(bus.set_mood_lights(MoodLights::Off), Ok(()));
    assert_eq!(
        drain(&mut bus),
        vec![write([0x12, 0, 0, 0]), BusOp::DelayMs { ms: 100 }, write([0x11, 160, 0, 0])]
    );
}

#[test]
fn failed_first_write_aborts_the_rest() {
    let mut bus = WuKongBus::new();
    assert_eq!(bus.set_mood_lights(MoodLights::Breath), Ok(()));
    assert_eq!(bus.next_op(), Some(write([0x11, 0, 0, 0])));
    bus.op_done(false);
    assert_eq!(bus.next_op(), None);
}

#[test]
fn failed_second_write_ends_the_sequence() {
    let mut bus = WuKongBus::new();
    assert_eq!(bus.set_mood_lights(MoodLights::Intensity(5)), Ok(()));
    bus.op_done(true);
    assert_eq!(bus.next_op(), Some(BusOp::DelayMs { ms: 100 }));
    bus.op_done(true);
    assert_eq!(bus.next_op(), Some(write([0x11, 160, 0, 0])));
    bus.op_done(false);
    assert_eq!(bus.next_op(), None);
}

#[test]
fn errors_convert_to_bus_error() {
    let e: BusError<()> = Error::Overintensity(200).into();
    assert_eq!(e, BusError::MoodLight(Error::Overintensity(200)));
    let e: BusError<u8> = mb2_wukong_expansion::bus::motor::Error::Overspeed(-120).into();
    assert_eq!(e, BusError::Motor(mb2_wukong_expansion::bus::motor::Error::Overspeed(-120)));
    let e: BusError<u8> = mb2_wukong_expansion::bus::servo::Error::InvalidAngle(400).into();
    assert_eq!(e, BusError::Servo(mb2_wukong_expansion::bus::servo::Error::InvalidAngle(400)));
}

use mb2_wukong_expansion::bus::motor::Error;
use mb2_wukong_expansion::bus::BusOp;
use mb2_wukong_expansion::{Motor, WuKongBus};

#[test]
fn motor_numbers_round_trip() {
    for raw in 0..=255u8 {
        match Motor::new(raw) {
            Ok(m) => {
                assert!(raw == 1 || raw == 2);
                assert_eq!(m.number(), raw);
                assert_eq!(u8::from(m), raw);
                assert_eq!(Motor::try_from(raw), Ok(m));
            }
            Err(e) => {
                assert!(raw != 1 && raw != 2);
                assert_eq!(e, Error::InvalidIndex(raw));
                assert_eq!(Motor::try_from(raw), Err(Error::InvalidIndex(raw)));
            }
        }
    }
}

fn write(bytes: [u8; 4]) -> BusOp {
    BusOp::Write { addr: WuKongBus::I2C_ADDR, bytes }
}

#[test]
fn zero_velocity_is_forward_at_speed_zero() {
    let mut bus = WuKongBus::new();
    assert_eq!(bus.set_motor_velocity(Motor::new(1).unwrap(), 0), Ok(()));
    assert_eq!(bus.next_op(), Some(write([1, 1, 0, 0])));
}

#[test]
fn velocity_sign_and_speed() {
    let mut bus = WuKongBus::new();
    let m2 = Motor::new(2).unwrap();
    assert_eq!(bus.set_motor_velocity(m2, 100), Ok(()));
    assert_eq!(bus.next_op(), Some(write([2, 1, 100, 0])));
    assert_eq!(bus.set_motor_velocity(m2, -100), Ok(()));
    assert_eq!(bus.next_op(), Some(write([2, 2, 100, 0])));
    assert_eq!(bus.set_motor_velocity(m2, -37), Ok(()));
    assert_eq!(bus.next_op(), Some(write([2, 2, 37, 0])));
    bus.op_done(true);
    assert_eq!(bus.next_op(), None);
}

#[test]
fn overspeed_writes_nothing() {
    let m1 = Motor::new(1).unwrap();
    for v in [101i8, 127, -101, -128] {
        let mut bus = WuKongBus::new();
        assert_eq!(bus.set_motor_velocity(m1, v), Err(Error::Overspeed(v)));
        assert_eq!(bus.next_op(), None);
    }
}

#[test]
fn every_velocity_in_range_is_one_write() {
    let m1 = Motor::new(1).unwrap();
    for v in -100..=100i8 {
        let mut bus = WuKongBus::new();
        assert_eq!(bus.set_motor_velocity(m1, v), Ok(()));
        let sign = if v >= 0 { 1 } else { 2 };
        assert_eq!(bus.next_op(), Some(write([1, sign, v.unsigned_abs(), 0])));
        bus.op_done(true);
        assert_eq!(bus.next_op(), None);
    }
}

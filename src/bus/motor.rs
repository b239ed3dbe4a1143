//! DC motors. The Wukong has two motor outputs that are driven through the
//! I2C bus, each at a velocity in -100..=100.

use crate::bus::{write_cmd, write_op, BusOp, WuKongBus};
use vstd::prelude::*;

verus! {

/// Motor operation error.
#[derive(Debug, Clone, Copy, PartialEq, Eq)]
pub enum Error {
    /// Requested motor does not exist.
    InvalidIndex(u8),
    /// Requested absolute motor speed too large.
    Overspeed(i8),
}

/// Motor to be controlled (numbered 1..=2).
#[derive(Debug, Clone, Copy, PartialEq, Eq)]
pub struct Motor(u8);

impl Motor {
    #[verifier::type_invariant]
    spec fn inv(self) -> bool {
        self.0 < 2
    }

    /// The zero-based index of the motor.
    pub closed spec fn index(self) -> nat {
        self.0 as nat
    }

    /// Make a new motor id.  Uses one-based numbering: the first motor is
    /// `1`, not `0`.
    ///
    /// # Errors
    ///
    /// Returns an error when given an out-of-range ID.
    pub fn new(motor: u8) -> (r: Result<Self, Error>)
        ensures
            motor_from_raw(motor, r),
    {
        if motor < 1 || motor > 2 {
            return Err(Error::InvalidIndex(motor));
        }
        Ok(Motor(motor - 1))
    }

    /// The zero-based index of the motor (0..=1).
    pub fn index_value(self) -> (r: u8)
        ensures
            r == self.index(),
            r < 2,
    {
        proof {
            use_type_invariant(&self);
        }
        self.0
    }

    /// The one-based number of the motor (1..=2), as given to [`Motor::new`].
    pub fn number(self) -> (r: u8)
        ensures
            r == self.index() + 1,
    {
        self.index_value() + 1
    }
}

/// What [`Motor::new`] returns for `raw`: the motor of index `raw - 1` when
/// `raw` is 1 or 2, else an `InvalidIndex` error.
pub open spec fn motor_from_raw(raw: u8, r: Result<Motor, Error>) -> bool {
    match r {
        Ok(m) => 1 <= raw <= 2 && m.index() == raw - 1,
        Err(e) => !(1 <= raw <= 2) && e == Error::InvalidIndex(raw),
    }
}

/// Numbering a motor by a byte and reading its number back gives that byte
/// for 1 and 2; any other byte is refused and names no motor.
pub proof fn motor_number_round_trip(raw: u8, r: Result<Motor, Error>)
    requires
        motor_from_raw(raw, r),
    ensures
        1 <= raw <= 2 ==> (r matches Ok(m) && m.index() + 1 == raw
            && <u8 as vstd::std_specs::convert::FromSpec<Motor>>::from_spec(m) == raw),
        !(1 <= raw <= 2) ==> r is Err,
{
}

/// The one-based number of the motor, the byte it was made from.
impl From<Motor> for u8 {
    fn from(motor: Motor) -> (r: u8)
        ensures
            r == motor.index() + 1,
    {
        motor.number()
    }
}

impl vstd::std_specs::convert::FromSpecImpl<Motor> for u8 {
    open spec fn obeys_from_spec() -> bool {
        true
    }

    open spec fn from_spec(v: Motor) -> u8 {
        (v.index() + 1) as u8
    }
}

/// Make a motor id from its one-based number, as [`Motor::new`] does.
impl TryFrom<u8> for Motor {
    type Error = Error;

    fn try_from(motor: u8) -> (r: Result<Self, Error>)
        ensures
            motor_from_raw(motor, r),
    {
        Motor::new(motor)
    }
}

impl vstd::std_specs::convert::TryFromSpecImpl<u8> for Motor {
    open spec fn obeys_try_from_spec() -> bool {
        true
    }

    closed spec fn try_from_spec(v: u8) -> Result<Self, Error> {
        if 1 <= v <= 2 {
            Ok(Motor((v - 1) as u8))
        } else {
            Err(Error::InvalidIndex(v))
        }
    }
}

/// The write that sets `motor` to `velocity`: register `index + 1`, then the
/// direction (1 forward, 2 reverse), then the speed.
pub open spec fn motor_op(motor: Motor, velocity: i8) -> BusOp {
    write_op(
        (motor.index() + 1) as u8,
        if velocity >= 0 { 1 } else { 2 },
        (if velocity >= 0 { velocity as int } else { -velocity }) as u8,
        0,
    )
}

impl WuKongBus {
    /// Set the given `motor` to the given rotational `velocity` (-100..=100).
    ///
    /// # Errors
    ///
    /// Returns an error, and leaves nothing to perform, if `velocity` is
    /// out of range.
    pub fn set_motor_velocity(&mut self, motor: Motor, velocity: i8) -> (r: Result<(), Error>)
        ensures
            -100 <= velocity <= 100 ==> r is Ok && final(self)@ == seq![motor_op(motor, velocity)],
            !(-100 <= velocity <= 100) ==> r == Err::<(), Error>(Error::Overspeed(velocity))
                && final(self)@ == Seq::<BusOp>::empty(),
    {
        let mut ops: Vec<BusOp> = Vec::new();
        if velocity < -100 || velocity > 100 {
            self.start(ops);
            return Err(Error::Overspeed(velocity));
        }
        let motor_value = motor.index_value() + 1;
        let sign: u8 = if velocity >= 0 { 1 } else { 2 };
        let speed: u8 = if velocity >= 0 { velocity as u8 } else { (-velocity) as u8 };
        ops.push(write_cmd(motor_value, sign, speed, 0));
        assert(ops@ =~= seq![motor_op(motor, velocity)]);
        self.start(ops);
        Ok(())
    }
}

} // verus!

//! Commands to the Wukong co-processor over the I2C bus. It runs the mood
//! lights, the motors and the servos.
//!
//! [`WuKongBus`] does not touch the bus itself. Each request is validated and
//! turns into a short list of bus operations, four-byte writes to the
//! co-processor and the pauses between them. The code that owns the I2C
//! peripheral takes them one at a time with [`WuKongBus::next_op`], performs
//! each, and reports how it went with [`WuKongBus::op_done`]; a failed write
//! drops the rest of the list.

pub mod mood_lights;
pub mod motor;
pub mod servo;

pub use mood_lights::MoodLights;
pub use motor::Motor;
pub use servo::{Servo, ServoAngle, ServoConfig};

use vstd::prelude::*;

verus! {

/// I2C address of the Wukong co-processor.
pub const I2C_ADDR: u8 = 0x10;

/// Error during bus operation. `E` is the error type of the I2C transport.
#[derive(Debug, Clone, Copy, PartialEq, Eq)]
pub enum Error<E> {
    /// I2C error.
    I2c(E),
    /// Mood light error.
    MoodLight(mood_lights::Error),
    /// Motor error.
    Motor(motor::Error),
    /// Servo error.
    Servo(servo::Error),
}

impl<E> From<mood_lights::Error> for Error<E> {
    fn from(err: mood_lights::Error) -> (r: Self)
        ensures
            r == Error::<E>::MoodLight(err),
    {
        Error::MoodLight(err)
    }
}

impl<E> vstd::std_specs::convert::FromSpecImpl<mood_lights::Error> for Error<E> {
    open spec fn obeys_from_spec() -> bool {
        true
    }

    open spec fn from_spec(v: mood_lights::Error) -> Self {
        Error::MoodLight(v)
    }
}

impl<E> From<motor::Error> for Error<E> {
    fn from(err: motor::Error) -> (r: Self)
        ensures
            r == Error::<E>::Motor(err),
    {
        Error::Motor(err)
    }
}

impl<E> vstd::std_specs::convert::FromSpecImpl<motor::Error> for Error<E> {
    open spec fn obeys_from_spec() -> bool {
        true
    }

    open spec fn from_spec(v: motor::Error) -> Self {
        Error::Motor(v)
    }
}

impl<E> From<servo::Error> for Error<E> {
    fn from(err: servo::Error) -> (r: Self)
        ensures
            r == Error::<E>::Servo(err),
    {
        Error::Servo(err)
    }
}

impl<E> vstd::std_specs::convert::FromSpecImpl<servo::Error> for Error<E> {
    open spec fn obeys_from_spec() -> bool {
        true
    }

    open spec fn from_spec(v: servo::Error) -> Self {
        Error::Servo(v)
    }
}

/// One operation on the bus.
#[derive(Debug, Clone, Copy, PartialEq, Eq)]
pub enum BusOp {
    /// Write `bytes` to the device at `addr`.
    Write { addr: u8, bytes: [u8; 4] },
    /// Wait `ms` milliseconds.
    DelayMs { ms: u32 },
}

/// The write of the four bytes `b0 b1 b2 b3` to the co-processor; `b0` is the
/// register.
pub open spec fn write_op(b0: u8, b1: u8, b2: u8, b3: u8) -> BusOp {
    BusOp::Write { addr: I2C_ADDR, bytes: [b0, b1, b2, b3] }
}

fn write_cmd(b0: u8, b1: u8, b2: u8, b3: u8) -> (r: BusOp)
    ensures
        r == write_op(b0, b1, b2, b3),
{
    BusOp::Write { addr: I2C_ADDR, bytes: [b0, b1, b2, b3] }
}

/// Driver state for the Wukong I2C bus: the bus operations that the last
/// request left to perform.
pub struct WuKongBus {
    pending: Vec<BusOp>,
}

impl View for WuKongBus {
    /// The operations still to perform, first one first.
    type V = Seq<BusOp>;

    closed spec fn view(&self) -> Seq<BusOp> {
        self.pending@
    }
}

impl WuKongBus {
    /// I2C address of the Wukong co-processor.
    pub const I2C_ADDR: u8 = I2C_ADDR;

    /// A bus driver with nothing to do.
    pub fn new() -> (r: Self)
        ensures
            r@ == Seq::<BusOp>::empty(),
    {
        WuKongBus { pending: Vec::new() }
    }

    /// The next operation to perform, if any.
    pub fn next_op(&self) -> (r: Option<BusOp>)
        ensures
            r == if self@.len() == 0 { None } else { Some(self@[0]) },
    {
        if self.pending.len() == 0 {
            None
        } else {
            Some(self.pending[0])
        }
    }

    /// Record the outcome of the operation that [`WuKongBus::next_op`] gave:
    /// on success the next one comes up; on failure none of the rest is
    /// performed.
    pub fn op_done(&mut self, succeeded: bool)
        requires
            old(self)@.len() > 0,
        ensures
            final(self)@ == if succeeded { old(self)@.drop_first() } else { Seq::<BusOp>::empty() },
    {
        if succeeded {
            self.pending.remove(0);
            assert(self@ =~= old(self)@.drop_first());
        } else {
            self.pending.clear();
        }
    }

    /// Replace what is left to perform with `ops`.
    fn start(&mut self, ops: Vec<BusOp>)
        ensures
            final(self)@ == ops@,
    {
        self.pending = ops;
    }
}

} // verus!

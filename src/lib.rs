//! Driver logic for the Elecfreaks Wukong expansion board of the BBC micro:bit v2.
//!
//! The board's co-processor is driven over I2C with four-byte commands: mood
//! lights, two DC motors and eight servos. [`WuKongBus`] validates each request
//! and lays out the bus operations that carry it out; the code that owns the
//! I2C peripheral performs them in order. [`WuKongBuzzer`] plans a tone burst on
//! a PWM unit and follows it until the hardware reports that all its loops are
//! done. [`WuKongAmbient`] keeps the colours of the four corner LEDs.

pub mod ambient;
pub mod bus;
pub mod buzzer;

pub use ambient::{WuKongAmbient, RGB8};
pub use bus::{MoodLights, Motor, Servo, ServoAngle, ServoConfig, WuKongBus};
pub use buzzer::WuKongBuzzer;

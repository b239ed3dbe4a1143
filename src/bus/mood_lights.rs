//! The Wukong "mood lights": blue LEDs on the bottom of the board, run by the
//! co-processor. They move in unison, and can be set either to "breathe" or
//! to a steady intensity. Each change takes two writes with a settling pause
//! between them.

use crate::bus::{write_cmd, write_op, BusOp, WuKongBus};
use vstd::prelude::*;

verus! {

/// Error in mood light operation.
#[derive(Debug, Clone, Copy, PartialEq, Eq)]
pub enum Error {
    /// Attempted to set intensity too high.
    Overintensity(u8),
}

/// Modes for the mood lights.
#[derive(Debug, Clone, Copy, PartialEq, Eq)]
pub enum MoodLights {
    /// Turned off (default).
    Off,
    /// "Breathing" with a period of a couple of seconds.
    Breath,
    /// On with given intensity (0..=100).
    Intensity(u8),
}

/// Pause between the two writes of a mood light change, in milliseconds.
pub const SETTLE_DELAY_MS: u32 = 100;

/// Whether `mode` asks for more than full intensity.
pub open spec fn overintense(mode: MoodLights) -> bool {
    mode matches MoodLights::Intensity(i) && i > 100
}

/// The operations that put the mood lights in `mode`: breathing is register
/// 0x11 cleared, then 150 in register 0x12; a steady intensity is the
/// intensity in register 0x12, then 160 in register 0x11. A pause of
/// [`SETTLE_DELAY_MS`] stands between the two writes.
pub open spec fn mood_lights_ops(mode: MoodLights) -> Seq<BusOp> {
    let pause = BusOp::DelayMs { ms: SETTLE_DELAY_MS };
    match mode {
        MoodLights::Breath => seq![write_op(0x11, 0, 0, 0), pause, write_op(0x12, 150, 0, 0)],
        MoodLights::Off => seq![write_op(0x12, 0, 0, 0), pause, write_op(0x11, 160, 0, 0)],
        MoodLights::Intensity(i) => seq![write_op(0x12, i, 0, 0), pause, write_op(0x11, 160, 0, 0)],
    }
}

impl WuKongBus {
    /// Set the mood lights to the given mode.
    ///
    /// # Errors
    ///
    /// Returns an error, and leaves nothing to perform, if the intensity is
    /// over 100.
    pub fn set_mood_lights(&mut self, mood_lights: MoodLights) -> (r: Result<(), Error>)
        ensures
            overintense(mood_lights) ==> r == Err::<(), Error>(
                Error::Overintensity(mood_lights->Intensity_0),
            ) && final(self)@ == Seq::<BusOp>::empty(),
            !overintense(mood_lights) ==> r is Ok && final(self)@ == mood_lights_ops(mood_lights),
    {
        let mut ops: Vec<BusOp> = Vec::new();
        match mood_lights {
            MoodLights::Breath => {
                ops.push(write_cmd(0x11, 0, 0, 0));
                ops.push(BusOp::DelayMs { ms: SETTLE_DELAY_MS });
                ops.push(write_cmd(0x12, 150, 0, 0));
            },
            MoodLights::Off | MoodLights::Intensity(_) => {
                let intensity: u8 = match mood_lights {
                    MoodLights::Intensity(intensity) => {
                        if intensity > 100 {
                            self.start(ops);
                            return Err(Error::Overintensity(intensity));
                        }
                        intensity
                    },
                    _ => 0,
                };
                ops.push(write_cmd(0x12, intensity, 0, 0));
                ops.push(BusOp::DelayMs { ms: SETTLE_DELAY_MS });
                ops.push(write_cmd(0x11, 160, 0, 0));
            },
        }
        assert(ops@ =~= mood_lights_ops(mood_lights));
        self.start(ops);
        Ok(())
    }
}

} // verus!

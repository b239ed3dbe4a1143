//! The four "Ambient" LEDs near the corners of the Wukong board: WS2812-family
//! smart LEDs on one chain. [`WuKongAmbient`] keeps the colour of each; after
//! every change the whole frame of four colours is sent down the chain.

use vstd::prelude::*;

verus! {

/// Number of ambient LEDs on the chain.
pub const NUM_LEDS: usize = 4;

/// A colour: red, green and blue intensities.
#[derive(Debug, Clone, Copy, PartialEq, Eq, Default)]
pub struct RGB8 {
    /// Red component.
    pub r: u8,
    /// Green component.
    pub g: u8,
    /// Blue component.
    pub b: u8,
}

impl RGB8 {
    /// The colour with the given components.
    pub fn new(r: u8, g: u8, b: u8) -> (c: Self)
        ensures
            c == (RGB8 { r, g, b }),
    {
        RGB8 { r, g, b }
    }
}

/// The colour of an LED that is off.
pub open spec fn off() -> RGB8 {
    RGB8 { r: 0, g: 0, b: 0 }
}

/// Error during ambient driver operation.
#[derive(Debug, Clone, Copy, PartialEq, Eq)]
pub enum Error {
    /// Bad index.
    IndexError(usize),
}

/// Ambient LED driver state: the colour of each LED, by index.
pub struct WuKongAmbient {
    rgb_colors: [RGB8; 4],
}

impl View for WuKongAmbient {
    /// The colour of each LED, by index.
    type V = Seq<RGB8>;

    closed spec fn view(&self) -> Seq<RGB8> {
        self.rgb_colors@
    }
}

impl WuKongAmbient {
    /// All LEDs off.
    pub fn new() -> (r: Self)
        ensures
            r@ == Seq::new(NUM_LEDS as nat, |i: int| off()),
    {
        let r = WuKongAmbient { rgb_colors: [RGB8 { r: 0, g: 0, b: 0 }; 4] };
        assert(r@ =~= Seq::new(NUM_LEDS as nat, |i: int| off()));
        r
    }

    /// The frame to send down the chain: the colour of each LED, by index.
    pub fn colors(&self) -> (r: [RGB8; 4])
        ensures
            r@ == self@,
    {
        self.rgb_colors
    }

    /// Set a specific LED by `index` (0..=3) to a specific `color`.
    ///
    /// # Errors
    ///
    /// Returns an error, and changes nothing, if `index` is out of range.
    pub fn set_color(&mut self, index: usize, color: RGB8) -> (r: Result<(), Error>)
        ensures
            index < NUM_LEDS ==> r is Ok && final(self)@ == old(self)@.update(index as int, color),
            index >= NUM_LEDS ==> r == Err::<(), Error>(Error::IndexError(index)) && final(self)@
                == old(self)@,
    {
        if index >= NUM_LEDS {
            return Err(Error::IndexError(index));
        }
        self.rgb_colors[index] = color;
        Ok(())
    }
}

} // verus!

//! Colours as the library sees them: 8-bit RGBA.
use vstd::prelude::*;

verus! {

/// An sRGB colour with straight alpha, one byte per channel.
#[derive(Clone, Copy, Debug, PartialEq, Eq, Structural)]
pub struct Colour {
    pub red: u8,
    pub green: u8,
    pub blue: u8,
    pub alpha: u8,
}

impl Colour {
    pub open spec fn is_transparent(self) -> bool {
        self.alpha == 0
    }

    pub fn rgba(red: u8, green: u8, blue: u8, alpha: u8) -> (r: Colour)
        ensures
            r == (Colour { red, green, blue, alpha }),
    {
        Colour { red, green, blue, alpha }
    }

    pub fn rgb(red: u8, green: u8, blue: u8) -> (r: Colour)
        ensures
            r == (Colour { red, green, blue, alpha: 255 }),
    {
        Colour { red, green, blue, alpha: 255 }
    }

    /// The fully transparent colour.
    pub fn none() -> (r: Colour)
        ensures
            r == Colour::none_spec(),
            r.is_transparent(),
    {
        Colour { red: 0, green: 0, blue: 0, alpha: 0 }
    }

    pub open spec fn none_spec() -> Colour {
        Colour { red: 0, green: 0, blue: 0, alpha: 0 }
    }
}

} // verus!

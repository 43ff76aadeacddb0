//! The display surface as this core sees it: colors and pixel writers.

use vstd::prelude::*;

pub mod pixel;

verus! {

/// A color of three 8-bit channels, without alpha.
#[derive(Clone, Copy, Debug, PartialEq, Eq, Structural)]
pub struct Color {
    pub red: u8,
    pub green: u8,
    pub blue: u8,
}

impl Color {
    /// Red at full strength: the color that signals an unrecoverable fault.
    pub open spec fn spec_alert() -> Color {
        Color { red: 255, green: 0, blue: 0 }
    }

    /// White: the foreground of typed characters.
    pub open spec fn spec_white() -> Color {
        Color { red: 255, green: 255, blue: 255 }
    }

    /// Black: the background of typed characters.
    pub open spec fn spec_black() -> Color {
        Color { red: 0, green: 0, blue: 0 }
    }

    #[verifier::when_used_as_spec(spec_alert)]
    pub fn alert() -> (color: Color)
        ensures
            color == Color::spec_alert(),
    {
        Color { red: 255, green: 0, blue: 0 }
    }

    #[verifier::when_used_as_spec(spec_white)]
    pub fn white() -> (color: Color)
        ensures
            color == Color::spec_white(),
    {
        Color { red: 255, green: 255, blue: 255 }
    }

    #[verifier::when_used_as_spec(spec_black)]
    pub fn black() -> (color: Color)
        ensures
            color == Color::spec_black(),
    {
        Color { red: 0, green: 0, blue: 0 }
    }

    /// The gray level of this color: the average of its three channels, rounded down.
    pub open spec fn gray(self) -> int {
        (self.red + self.green + self.blue) / 3
    }
}

} // verus!

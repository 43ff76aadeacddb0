//! What this core asks of the display consumer.

use vstd::prelude::*;
use crate::render::Color;

verus! {

/// One request to the display consumer.
#[derive(Clone, Copy, Debug, PartialEq, Eq, Structural)]
pub enum DisplayAction {
    /// Paint the whole surface in one color.
    Clear(Color),
    /// Print a character after the last one, with its foreground and background.
    AppendCharacter(char, Color, Color),
    /// Remove the character printed last.
    ErasePreviousCharacter,
    /// Go to the start of the next line.
    StartNewLine,
}

} // verus!

//! The handlers of the hardware interrupts: the timer tick and the keyboard.
//!
//! A handler here touches no hardware. It is given what the entry point read
//! from the hardware and answers with a [`Service`]: what to ask of the
//! display, and which interrupt to acknowledge. The entry point carries both
//! out, the acknowledgement last.

use vstd::prelude::*;
use crate::display::DisplayAction;
use crate::idt::InterruptIndex;
use crate::keyboard::{DecodedKey, Decoder, DecoderState, KEY_RETURN, is_prefix, scancode_event};
use crate::render::Color;

verus! {

/// The character of the backspace key.
pub const BACKSPACE: char = '\u{8}';

/// The character of the Return key.
pub const LINE_FEED: char = '\n';

/// What one hardware interrupt asks of its entry point.
#[derive(Clone, Copy, Debug, PartialEq, Eq, Structural)]
pub struct Service {
    /// The request to the display, if the interrupt led to one.
    pub display: Option<DisplayAction>,
    /// The interrupt to signal the end of: once, after the display was served.
    pub end_of_interrupt: InterruptIndex,
}

/// Whether `key` is the Return key: its raw key, or the line feed that the
/// layout gives for it.
pub open spec fn is_return(key: DecodedKey) -> bool {
    key == DecodedKey::RawKey(KEY_RETURN) || key == DecodedKey::Unicode(LINE_FEED)
}

/// What the display is asked for a decoded key: a backspace erases, Return
/// starts a new line, any other character is appended in white on black, and
/// any other key asks nothing.
pub open spec fn action_for(key: Option<DecodedKey>) -> Option<DisplayAction> {
    match key {
        Some(DecodedKey::Unicode(character)) => if character == BACKSPACE {
            Some(DisplayAction::ErasePreviousCharacter)
        } else if character == LINE_FEED {
            Some(DisplayAction::StartNewLine)
        } else {
            Some(DisplayAction::AppendCharacter(character, Color::white(), Color::black()))
        },
        Some(DecodedKey::RawKey(code)) => if code == KEY_RETURN {
            Some(DisplayAction::StartNewLine)
        } else {
            None
        },
        None => None,
    }
}

/// The request to the display for a decoded key, if it has one.
pub fn key_action(key: Option<DecodedKey>) -> (action: Option<DisplayAction>)
    ensures
        action == action_for(key),
{
    match key {
        Some(DecodedKey::Unicode(character)) => {
            if character == BACKSPACE {
                Some(DisplayAction::ErasePreviousCharacter)
            } else if character == LINE_FEED {
                Some(DisplayAction::StartNewLine)
            } else {
                Some(DisplayAction::AppendCharacter(character, Color::white(), Color::black()))
            }
        },
        Some(DecodedKey::RawKey(code)) => {
            if code == KEY_RETURN {
                Some(DisplayAction::StartNewLine)
            } else {
                None
            }
        },
        None => None,
    }
}

/// The timer tick: nothing but the acknowledgement of the timer's interrupt.
pub fn timer() -> (service: Service)
    ensures
        service.display is None,
        service.end_of_interrupt == InterruptIndex::Timer,
{
    Service { display: None, end_of_interrupt: InterruptIndex::Timer }
}

/// The keyboard interrupt, for the byte that was read from the keyboard's
/// data port. The byte goes to the decoder; a key that it completes becomes
/// a request to the display. The keyboard's interrupt is acknowledged
/// whether or not a key came of the byte.
pub fn keyboard(decoder: &mut Decoder, scancode: u8) -> (service: Service)
    ensures
        service.display == action_for(old(decoder)@.key(scancode)),
        service.end_of_interrupt == InterruptIndex::Keyboard,
        final(decoder)@ == old(decoder)@.after(scancode),
{
    let key = decoder.decode(scancode);
    Service { display: key_action(key), end_of_interrupt: InterruptIndex::Keyboard }
}

/// A scancode that the layout maps to a character has exactly that character
/// appended, in white on black. The two characters that are no print are
/// apart: a backspace erases the previous character, and the line feed of the
/// Return key starts a new line; neither is ever appended.
pub proof fn character_is_appended(state: DecoderState, scancode: u8, character: char)
    requires
        state.key(scancode) == Some(DecodedKey::Unicode(character)),
    ensures
        character != BACKSPACE && character != LINE_FEED ==> action_for(state.key(scancode)) == Some(
            DisplayAction::AppendCharacter(character, Color::white(), Color::black()),
        ),
        character == BACKSPACE ==> action_for(state.key(scancode)) == Some(
            DisplayAction::ErasePreviousCharacter,
        ),
        character == LINE_FEED ==> action_for(state.key(scancode)) == Some(
            DisplayAction::StartNewLine,
        ),
{
}

/// A scancode that is decoded to the Return key starts a new line, and
/// appends no character.
pub proof fn return_starts_new_line(state: DecoderState, scancode: u8)
    requires
        state.key(scancode) matches Some(key) && is_return(key),
    ensures
        action_for(state.key(scancode)) == Some(DisplayAction::StartNewLine),
        !(action_for(state.key(scancode)) matches Some(DisplayAction::AppendCharacter(_, _, _))),
{
}

/// A prefix byte that arrives as a first byte gives no key event, no key and
/// no request to the display, and changes nothing but the pending bytes. The
/// byte after it closes the sequence: it gives the one event that the two
/// bytes stand for, and the decoder awaits a first byte again.
pub proof fn prefix_waits_for_completion(state: DecoderState, prefix: u8, byte: u8)
    requires
        state.awaits_first_byte(),
        is_prefix(prefix),
    ensures
        state.event(prefix) is None,
        state.key(prefix) is None,
        action_for(state.key(prefix)) is None,
        state.after(prefix).pending == seq![prefix],
        state.after(prefix).switches == state.switches,
        state.after(prefix).event(byte) == scancode_event(seq![prefix, byte]),
        state.after(prefix).after(byte).awaits_first_byte(),
{
    assert(seq![prefix].push(byte) =~= seq![prefix, byte]);
}

} // verus!

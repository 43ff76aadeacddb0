//! The scancode decoder: raw bytes of the keyboard port become key events,
//! and key events become characters or named keys of one fixed layout.
//!
//! The decoding itself is the work of the `pc_keyboard` crate, for scancode
//! set 1 and the US 104-key layout. This module holds that crate's keyboard
//! in a [`Decoder`], describes its state by two sequences, and states what
//! each byte does to them.

use vstd::prelude::*;
use pc_keyboard::{Keyboard, KeyEvent, ScancodeSet1};
use pc_keyboard::layouts::Us104Key;

verus! {

/// The port from which the keyboard's bytes are read, one byte for each interrupt.
pub const DATA_PORT: u16 = 0x60;

/// The byte that opens a two-byte scancode sequence.
pub const EXTENDED_PREFIX: u8 = 0xE0;

/// The byte that opens a two-byte scancode sequence of the second kind.
pub const EXTENDED2_PREFIX: u8 = 0xE1;

/// The number that `pc_keyboard` gives the Return key among its key codes.
pub const KEY_RETURN: u8 = 72;

/// The keyboard of `pc_keyboard` for scancode set 1 and the US 104-key layout.
/// The verifier does not look inside: what it knows of a keyboard is what
/// [`pending`] and [`switches`] name.
#[verifier::external_body]
pub struct UsKeyboard {
    inner: Keyboard<Us104Key, ScancodeSet1>,
}

/// `KeyEvent` of `pc_keyboard`: a key and whether it went down or up. It is
/// carried from [`Decoder::add_byte`] to [`Decoder::process_keyevent`] as it is.
#[verifier::external_type_specification]
#[verifier::external_body]
pub struct ExKeyEvent(KeyEvent);

/// `Error` of `pc_keyboard`: why a byte gave no key event.
#[verifier::external_type_specification]
#[verifier::external_body]
pub struct ExError(pc_keyboard::Error);

/// A key as the layout gives it: a character, or the number of a key that has none.
#[derive(Clone, Copy, Debug, PartialEq, Eq, Structural)]
pub enum DecodedKey {
    /// A key without a character, by its number among the key codes of `pc_keyboard`.
    RawKey(u8),
    /// A key with a character.
    Unicode(char),
}

/// The bytes that a keyboard has taken in since its last complete scancode
/// sequence: empty while it awaits a first byte, the prefix byte while it
/// awaits the byte after a prefix.
pub uninterp spec fn pending(keyboard: &UsKeyboard) -> Seq<u8>;

/// The switches by which a keyboard maps a key to a character, in this order:
/// left shift held, right shift held, left control held, right control held,
/// num lock on, caps lock on, AltGr held, the hidden control key of Pause
/// held, and whether letters typed with control become control characters.
pub uninterp spec fn switches(keyboard: &UsKeyboard) -> Seq<bool>;

/// The key event that a complete scancode sequence of set 1 stands for; `None`
/// where the set has no key for it.
pub uninterp spec fn scancode_event(sequence: Seq<u8>) -> Option<KeyEvent>;

/// What a key event does under given switches: the switches after it, and the
/// key that the US 104-key layout decodes it to, if any.
pub uninterp spec fn key_step(switches: Seq<bool>, event: KeyEvent) -> (Seq<bool>, Option<DecodedKey>);

/// The switches of a keyboard that has seen no key: num lock on, all else off.
pub open spec fn initial_switches() -> Seq<bool> {
    seq![false, false, false, false, true, false, false, false, false]
}

/// Whether `byte` is one of the two prefix bytes.
pub open spec fn is_prefix(byte: u8) -> bool {
    byte == EXTENDED_PREFIX || byte == EXTENDED2_PREFIX
}

/// Whether `byte` opens a sequence: a prefix byte that arrives as a first byte.
pub open spec fn opens_sequence(pending: Seq<u8>, byte: u8) -> bool {
    pending.len() == 0 && is_prefix(byte)
}

/// The bytes pending after `byte` has arrived.
pub open spec fn pending_after(pending: Seq<u8>, byte: u8) -> Seq<u8> {
    if opens_sequence(pending, byte) {
        seq![byte]
    } else {
        Seq::empty()
    }
}

/// The key event that `byte` completes, if any.
pub open spec fn event_at(pending: Seq<u8>, byte: u8) -> Option<KeyEvent> {
    if opens_sequence(pending, byte) {
        None
    } else {
        scancode_event(pending.push(byte))
    }
}

/// The key event that an answer of `Keyboard::add_byte` carries.
pub open spec fn completed(result: Result<Option<KeyEvent>, pc_keyboard::Error>) -> Option<KeyEvent> {
    match result {
        Ok(Some(event)) => Some(event),
        _ => None,
    }
}

/// `Keyboard::new` of `pc_keyboard`, for scancode set 1, the US 104-key layout
/// and letters left as letters under control. The new keyboard awaits a first
/// byte, with num lock on and every other switch off.
#[verifier::external_body]
fn new_keyboard() -> (keyboard: UsKeyboard)
    ensures
        pending(&keyboard) == Seq::<u8>::empty(),
        switches(&keyboard) == initial_switches(),
{
    UsKeyboard {
        inner: Keyboard::new(ScancodeSet1::new(), Us104Key, pc_keyboard::HandleControl::Ignore),
    }
}

/// `Keyboard::add_byte` of `pc_keyboard`. A prefix byte that arrives as a
/// first byte is kept and answered with `Ok(None)`, and nothing else is. Any
/// other byte ends the sequence: the answer is the key event that set 1 has
/// for the sequence, or an error where it has none. The switches stay.
#[verifier::external_body]
fn add_byte(keyboard: &mut UsKeyboard, byte: u8) -> (result: Result<
    Option<KeyEvent>,
    pc_keyboard::Error,
>)
    ensures
        switches(final(keyboard)) == switches(old(keyboard)),
        pending(final(keyboard)) == pending_after(pending(old(keyboard)), byte),
        (result matches Ok(None)) <==> opens_sequence(pending(old(keyboard)), byte),
        !opens_sequence(pending(old(keyboard)), byte) ==> completed(result) == scancode_event(
            pending(old(keyboard)).push(byte),
        ),
{
    keyboard.inner.add_byte(byte)
}

/// `Keyboard::process_keyevent` of `pc_keyboard`, with the decoded key turned
/// into this library's [`DecodedKey`]. The key and the switches afterwards
/// depend on the switches before and on the event alone; the pending bytes stay.
#[verifier::external_body]
fn process_keyevent(keyboard: &mut UsKeyboard, event: KeyEvent) -> (key: Option<DecodedKey>)
    ensures
        pending(final(keyboard)) == pending(old(keyboard)),
        (switches(final(keyboard)), key) == key_step(switches(old(keyboard)), event),
{
    match keyboard.inner.process_keyevent(event) {
        Some(pc_keyboard::DecodedKey::Unicode(character)) => Some(DecodedKey::Unicode(character)),
        Some(pc_keyboard::DecodedKey::RawKey(code)) => Some(DecodedKey::RawKey(code as u8)),
        None => None,
    }
}

/// The state of a [`Decoder`], as far as it shows in what the decoder answers.
pub struct DecoderState {
    /// The bytes of a scancode sequence that is not complete yet.
    pub pending: Seq<u8>,
    /// The modifier switches, in the order of [`switches`].
    pub switches: Seq<bool>,
}

impl DecoderState {
    /// The state of a decoder that has seen no byte.
    pub open spec fn initial() -> DecoderState {
        DecoderState { pending: Seq::empty(), switches: initial_switches() }
    }

    /// Whether the decoder awaits the first byte of a sequence.
    pub open spec fn awaits_first_byte(self) -> bool {
        self.pending.len() == 0
    }

    /// The key event that `byte` completes in this state, if any.
    pub open spec fn event(self, byte: u8) -> Option<KeyEvent> {
        event_at(self.pending, byte)
    }

    /// The key that `byte` is decoded to in this state, if any.
    pub open spec fn key(self, byte: u8) -> Option<DecodedKey> {
        match self.event(byte) {
            Some(event) => key_step(self.switches, event).1,
            None => None,
        }
    }

    /// The state after `byte` has arrived in this state.
    pub open spec fn after(self, byte: u8) -> DecoderState {
        DecoderState {
            pending: pending_after(self.pending, byte),
            switches: match self.event(byte) {
                Some(event) => key_step(self.switches, event).0,
                None => self.switches,
            },
        }
    }
}

/// Whatever the state and the byte, the decoder afterwards either awaits a
/// first byte or holds one prefix byte: no sequence is longer than two bytes.
pub proof fn pending_is_at_most_a_prefix(state: DecoderState, byte: u8)
    ensures
        state.after(byte).awaits_first_byte() || (state.after(byte).pending == seq![byte]
            && is_prefix(byte) && state.awaits_first_byte()),
{
}

/// The keyboard's decoder: it takes the bytes of the keyboard port one at a
/// time and answers with the key that a byte completes.
pub struct Decoder {
    keyboard: UsKeyboard,
}

impl View for Decoder {
    type V = DecoderState;

    closed spec fn view(&self) -> DecoderState {
        DecoderState { pending: pending(&self.keyboard), switches: switches(&self.keyboard) }
    }
}

impl Decoder {
    /// A decoder that awaits its first byte.
    pub fn new() -> (decoder: Decoder)
        ensures
            decoder@ == DecoderState::initial(),
    {
        Decoder { keyboard: new_keyboard() }
    }

    /// Takes one byte. A byte that completes a scancode sequence gives its key
    /// event; a prefix byte, or a byte that completes no known sequence, gives none.
    pub fn add_byte(&mut self, byte: u8) -> (event: Option<KeyEvent>)
        ensures
            event == old(self)@.event(byte),
            final(self)@.pending == pending_after(old(self)@.pending, byte),
            final(self)@.switches == old(self)@.switches,
    {
        match add_byte(&mut self.keyboard, byte) {
            Ok(Some(event)) => Some(event),
            _ => None,
        }
    }

    /// Takes one key event and gives the key that the layout decodes it to, if any.
    pub fn process_keyevent(&mut self, event: KeyEvent) -> (key: Option<DecodedKey>)
        ensures
            key == key_step(old(self)@.switches, event).1,
            final(self)@.switches == key_step(old(self)@.switches, event).0,
            final(self)@.pending == old(self)@.pending,
    {
        process_keyevent(&mut self.keyboard, event)
    }

    /// Takes one byte and gives the key that it completes, if any.
    pub fn decode(&mut self, scancode: u8) -> (key: Option<DecodedKey>)
        ensures
            key == old(self)@.key(scancode),
            final(self)@ == old(self)@.after(scancode),
    {
        match self.add_byte(scancode) {
            Some(event) => self.process_keyevent(event),
            None => None,
        }
    }
}

} // verus!

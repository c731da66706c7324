use crate::keys::Key;
use vstd::prelude::*;

verus! {

/// A complete key transition (key code plus make/break state) as reported by
/// the keyboard driver crate; opaque to the library.
#[verifier::external_type_specification]
#[verifier::external_body]
pub struct ExKeyEvent(pc_keyboard::KeyEvent);

/// The keyboard driver's decode error: the byte belongs to no known key or
/// fails the wire protocol; opaque to the library.
#[verifier::external_type_specification]
#[verifier::external_body]
pub struct ExKeyError(pc_keyboard::Error);

/// The scancode bytes a completed key transition was decoded from: the pending
/// prefix plus the byte that ended the sequence. Uninterpreted; the decoder's
/// trusted contracts state it for the scancode-set-1 rows the menu depends on,
/// which are pairwise distinct transitions, so one reading satisfies them all.
pub uninterp spec fn event_row(ev: pc_keyboard::KeyEvent) -> Seq<u8>;

/// The event is the synthetic single-shot F12 fallback, which no scancode
/// sequence of set 1 produces (the set yields only make and break states).
pub uninterp spec fn is_fallback_event(ev: pc_keyboard::KeyEvent) -> bool;

/// Relies on pc_keyboard::KeyEvent::new: the synthetic single-shot F12 event
/// that stands in for a byte that failed to parse, so the system stays
/// responsive instead of wedging.
#[verifier::external_body]
fn fallback_event() -> (ev: pc_keyboard::KeyEvent)
    ensures
        is_fallback_event(ev),
{
    pc_keyboard::KeyEvent::new(pc_keyboard::KeyCode::F12, pc_keyboard::KeyState::SingleShot)
}

/// The bytes of a multi-byte scancode sequence the decoder has accumulated
/// and not yet completed: empty at rest, the extended prefix while a two-byte
/// sequence is pending. Uninterpreted; the decoder's trusted contracts state
/// the few rows of the scancode-set-1 table that the menu depends on.
pub uninterp spec fn decoder_prefix(d: ScancodeDecoder) -> Seq<u8>;

/// The scancode decoder owned by the keyboard interrupt handler: the byte
/// accumulation state of the scancode-set-1 interpreter (make/break codes,
/// multi-byte extended sequences) together with the layout's modifier state.
/// Constructed once before interrupts are unmasked.
///
/// The driver crate's decoder type takes its trait-bounded layout and
/// scancode-set parameters, which cannot be declared here, so the whole field
/// is held behind an opaque boundary and the trusted contracts speak through
/// the `decoder_prefix` and `event_row` views instead.
#[verifier::external_body]
pub struct ScancodeDecoder {
    kb: pc_keyboard::PS2Keyboard<pc_keyboard::layouts::Us104Key, pc_keyboard::ScancodeSet1>,
}

impl ScancodeDecoder {
    /// Relies on pc_keyboard::PS2Keyboard::new and ScancodeSet1::new: a fresh
    /// decoder for scancode set 1 with the US 104-key layout, control keys
    /// left unmapped and no sequence pending.
    #[verifier::external_body]
    pub fn new() -> (d: Self)
        ensures
            decoder_prefix(d) == Seq::<u8>::empty(),
    {
        ScancodeDecoder {
            kb: pc_keyboard::PS2Keyboard::new(
                pc_keyboard::ScancodeSet1::new(),
                pc_keyboard::layouts::Us104Key,
                pc_keyboard::HandleControl::Ignore,
            ),
        }
    }

    /// Advance the byte-accumulation state by one scancode byte: `Ok(Some)`
    /// when the byte completes a key transition, `Ok(None)` when it starts or
    /// continues a multi-byte sequence, `Err` when it is malformed.
    ///
    /// Relies on pc_keyboard::PS2Keyboard::add_byte, that is ScancodeSet1::
    /// advance_state, whose source shows: at rest the extended prefix (0xE0)
    /// completes nothing and starts a two-byte sequence; any byte after that
    /// prefix returns the decoder to rest (the state is reset before the table
    /// lookup, so a decode error too); the extended arrow make and break codes
    /// (0x48, 0x50, 0xC8, 0xD0) complete exactly the arrow-key transitions of
    /// those rows; at rest the return-key make code (0x1C) completes the
    /// return-key-down transition and leaves no sequence pending.
    #[verifier::external_body]
    pub fn feed(&mut self, scancode: u8) -> (completed: Result<
        Option<pc_keyboard::KeyEvent>,
        pc_keyboard::Error,
    >)
        ensures
            decoder_prefix(*old(self)) == Seq::<u8>::empty() && scancode == 0xE0 ==> (completed
                matches Ok(None)) && decoder_prefix(*final(self)) == seq![0xE0u8],
            decoder_prefix(*old(self)) == seq![0xE0u8] ==> decoder_prefix(*final(self))
                == Seq::<u8>::empty(),
            decoder_prefix(*old(self)) == seq![0xE0u8] && (scancode == 0x48 || scancode == 0x50
                || scancode == 0xC8 || scancode == 0xD0) ==> (completed matches Ok(Some(ev))
                && event_row(ev) == seq![0xE0u8, scancode]),
            decoder_prefix(*old(self)) == Seq::<u8>::empty() && scancode == 0x1C
                ==> (completed matches Ok(Some(ev)) && event_row(ev) == seq![0x1Cu8])
                && decoder_prefix(*final(self)) == Seq::<u8>::empty(),
    {
        self.kb.add_byte(scancode)
    }

    /// Relies on pc_keyboard::PS2Keyboard::process_keyevent and the Us104Key
    /// layout, whose sources show: the return-key-down transition decodes to
    /// the newline character unconditionally; the arrow keys reach the
    /// layout's raw-key fallback arm whatever the modifier state; key-up
    /// transitions of non-modifier keys, and the single-shot fallback event,
    /// decode to nothing; and the call touches only the layout's modifier
    /// state, never the byte-accumulation state. The decoded key is reduced to
    /// the variants the menu distinguishes: a character, the two arrow keys,
    /// or any other raw code.
    #[verifier::external_body]
    fn process(&mut self, ev: pc_keyboard::KeyEvent) -> (k: Option<Key>)
        ensures
            decoder_prefix(*final(self)) == decoder_prefix(*old(self)),
            event_row(ev) == seq![0x1Cu8] ==> k == Some(Key::Char('\n')),
            event_row(ev) == seq![0xE0u8, 0x48u8] ==> k == Some(Key::ArrowUp),
            event_row(ev) == seq![0xE0u8, 0x50u8] ==> k == Some(Key::ArrowDown),
            event_row(ev) == seq![0xE0u8, 0xC8u8] ==> k is None,
            event_row(ev) == seq![0xE0u8, 0xD0u8] ==> k is None,
            is_fallback_event(ev) ==> k is None,
    {
        match self.kb.process_keyevent(ev) {
            Some(pc_keyboard::DecodedKey::Unicode(c)) => Some(Key::Char(c)),
            Some(pc_keyboard::DecodedKey::RawKey(pc_keyboard::KeyCode::ArrowUp)) => Some(
                Key::ArrowUp,
            ),
            Some(pc_keyboard::DecodedKey::RawKey(pc_keyboard::KeyCode::ArrowDown)) => Some(
                Key::ArrowDown,
            ),
            Some(pc_keyboard::DecodedKey::RawKey(_)) => Some(Key::OtherRaw),
            None => None,
        }
    }

    /// Decode one scancode byte: `None` while a multi-byte sequence is in
    /// progress (no user-visible event yet), otherwise exactly one key.
    ///
    /// A byte that completes a transition is decoded through the layout; a
    /// malformed byte is replaced by the synthetic single-shot F12 event, and
    /// any transition the layout does not decode (a key release, the fallback
    /// itself) becomes `Key::OtherRaw`, which the menu ignores. The rows the
    /// menu depends on are pinned exactly: the extended prefix dispatches
    /// nothing, the extended arrow make codes give the arrow keys, the
    /// return-key make code gives the confirm character, and the arrow break
    /// codes give the ignored key.
    pub fn decode(&mut self, scancode: u8) -> (k: Option<Key>)
        ensures
            decoder_prefix(*old(self)) == Seq::<u8>::empty() && scancode == 0xE0 ==> k is None
                && decoder_prefix(*final(self)) == seq![0xE0u8],
            decoder_prefix(*old(self)) == Seq::<u8>::empty() && scancode == 0x1C ==> k == Some(
                Key::Char('\n'),
            ) && decoder_prefix(*final(self)) == Seq::<u8>::empty(),
            decoder_prefix(*old(self)) == seq![0xE0u8] ==> decoder_prefix(*final(self))
                == Seq::<u8>::empty(),
            decoder_prefix(*old(self)) == seq![0xE0u8] && scancode == 0x48 ==> k == Some(
                Key::ArrowUp,
            ),
            decoder_prefix(*old(self)) == seq![0xE0u8] && scancode == 0x50 ==> k == Some(
                Key::ArrowDown,
            ),
            decoder_prefix(*old(self)) == seq![0xE0u8] && (scancode == 0xC8 || scancode == 0xD0)
                ==> k == Some(Key::OtherRaw),
    {
        let ev = match self.feed(scancode) {
            Ok(Some(ev)) => ev,
            Ok(None) => {
                // Sequence in progress: no user-visible event yet.
                return None;
            },
            Err(_) => fallback_event(),
        };
        match self.process(ev) {
            Some(k) => Some(k),
            None => Some(Key::OtherRaw),
        }
    }
}

} // verus!

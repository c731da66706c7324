use vstd::prelude::*;

verus! {

/// A decoded keyboard input, reduced to the distinctions the menu reacts to.
///
/// The layout either resolves a key event to a character (`Char`) or leaves it
/// as a raw key code; of the raw codes only the two arrow keys matter to the
/// menu, so every other raw code — including the synthetic F12 key that stands
/// in for malformed bytes, and the key releases the layout does not decode —
/// is `OtherRaw`.
#[derive(Clone, Copy, Debug, PartialEq, Eq, Structural)]
pub enum Key {
    Char(char),
    ArrowUp,
    ArrowDown,
    OtherRaw,
}

} // verus!

//! Key codes: the control-code transform and the key bindings.

use vstd::prelude::*;

verus! {

/// Mask that clears the upper three bits of a key's byte.
pub const CONTROL_MASK: u8 = 0x1f;

/// The byte of the letter bound to an orderly quit (`q`).
pub const QUIT_LETTER: u8 = 0x71;

/// What the terminal sends for a letter key held with Ctrl.
pub open spec fn ctrl_key_spec(key: u8) -> u8 {
    key & 0x1f
}

/// True of the bytes `A`..=`Z` and `a`..=`z`.
pub open spec fn is_ascii_letter(byte: u8) -> bool {
    (0x41 <= byte <= 0x5a) || (0x61 <= byte <= 0x7a)
}

/// Position of an ASCII letter in the alphabet, counted from 1, which is
/// the conventional control code of that letter.
pub open spec fn alphabet_position(letter: u8) -> int
    recommends
        is_ascii_letter(letter),
{
    if letter >= 0x61 {
        letter - 0x61 + 1
    } else {
        letter - 0x41 + 1
    }
}

/// The byte that Ctrl-Q arrives as.
pub open spec fn quit_code() -> u8 {
    0x11
}

/// The action a key byte is bound to.
#[derive(Clone, Copy, Debug, PartialEq, Eq, Structural)]
pub enum KeyAction {
    /// Leave the editor in an orderly way.
    Quit,
    /// No binding: nothing happens.
    Ignore,
}

/// The binding of every byte: Ctrl-Q quits, all else is unbound.
pub open spec fn decode_key_spec(byte: u8) -> KeyAction {
    if byte == quit_code() {
        KeyAction::Quit
    } else {
        KeyAction::Ignore
    }
}

/// Control-code transform: the key's byte with its upper three bits cleared.
pub fn ctrl_key(key: u8) -> (code: u8)
    ensures
        code == ctrl_key_spec(key),
        code == key & CONTROL_MASK,
        code < 0x20,
{
    let code: u8 = key & CONTROL_MASK;
    assert(key & 0x1f < 0x20) by (bit_vector);
    code
}

/// Decodes one input byte into the action it is bound to.
pub fn decode_key(byte: u8) -> (action: KeyAction)
    ensures
        action == decode_key_spec(byte),
        action == KeyAction::Quit <==> byte == ctrl_key_spec(QUIT_LETTER),
{
    proof {
        lemma_quit_code();
    }
    if byte == ctrl_key(QUIT_LETTER) {
        KeyAction::Quit
    } else {
        KeyAction::Ignore
    }
}

/// For every ASCII letter, of either case, the control-code transform is
/// the letter's position in the alphabet: `A` and `a` give 1, `Z` and `z`
/// give 26.
pub proof fn lemma_ctrl_key_of_letter(letter: u8)
    requires
        is_ascii_letter(letter),
    ensures
        ctrl_key_spec(letter) == letter & 0x1f,
        ctrl_key_spec(letter) == alphabet_position(letter),
        1 <= ctrl_key_spec(letter) <= 26,
{
    assert(0x41 <= letter <= 0x5a ==> letter & 0x1f == letter - 0x41 + 1) by (bit_vector);
    assert(0x61 <= letter <= 0x7a ==> letter & 0x1f == letter - 0x61 + 1) by (bit_vector);
}

/// The transform takes `q` to Ctrl-Q, `0x11`.
pub proof fn lemma_quit_code()
    ensures
        ctrl_key_spec(QUIT_LETTER) == quit_code(),
        ctrl_key_spec(QUIT_LETTER) == 0x11,
{
    assert(0x71u8 & 0x1f == 0x11) by (bit_vector);
}

} // verus!

//! Decoding of keyboard key codes into game input events.

use vstd::prelude::*;

verus! {

/// A key press that the games understand.
#[derive(Clone, Copy, PartialEq, Eq, Debug, Structural)]
pub enum KeyboardInput {
    /// A key of the numeric keypad, 1 to 9, numbered as printed on the keypad.
    Numpad(u8),
    /// A digit key of the main keyboard, 1 to 9.
    Number(u8),
    ArrowUp,
    ArrowDown,
    ArrowLeft,
    ArrowRight,
    Enter,
}

/// The input that a USB HID keyboard usage code stands for, if any.
pub open spec fn keycode_input(code: u8) -> Option<KeyboardInput> {
    if 0x59 <= code <= 0x61 {
        Some(KeyboardInput::Numpad((code - 0x58) as u8))
    } else if 0x1E <= code <= 0x26 {
        Some(KeyboardInput::Number((code - 0x1D) as u8))
    } else if code == 0x52 {
        Some(KeyboardInput::ArrowUp)
    } else if code == 0x51 {
        Some(KeyboardInput::ArrowDown)
    } else if code == 0x50 {
        Some(KeyboardInput::ArrowLeft)
    } else if code == 0x4F {
        Some(KeyboardInput::ArrowRight)
    } else if code == 0x58 || code == 0x28 {
        Some(KeyboardInput::Enter)
    } else {
        None
    }
}

/// The input of the first key code in `codes` that stands for one.
pub open spec fn first_input(codes: Seq<u8>) -> Option<KeyboardInput>
    decreases codes.len(),
{
    if codes.len() == 0 {
        None
    } else if keycode_input(codes[0]) is Some {
        keycode_input(codes[0])
    } else {
        first_input(codes.drop_first())
    }
}

/// Decodes one key code; codes of other keys give `None`.
pub fn decode_keycode(code: u8) -> (r: Option<KeyboardInput>)
    ensures
        r == keycode_input(code),
{
    match code {
        0x59u8..=0x61u8 => Some(KeyboardInput::Numpad(code - 0x58)),
        0x1Eu8..=0x26u8 => Some(KeyboardInput::Number(code - 0x1D)),
        0x52 => Some(KeyboardInput::ArrowUp),
        0x51 => Some(KeyboardInput::ArrowDown),
        0x50 => Some(KeyboardInput::ArrowLeft),
        0x4F => Some(KeyboardInput::ArrowRight),
        0x58 | 0x28 => Some(KeyboardInput::Enter),
        _ => None,
    }
}

/// The key press that a keyboard report stands for: the first of its six key
/// slots that holds a known key, if any.
pub fn process_keyboard_input(keycodes: [u8; 6]) -> (r: Option<KeyboardInput>)
    ensures
        r == first_input(keycodes@),
{
    let mut i: usize = 0;
    assert(keycodes@.subrange(0, 6) =~= keycodes@);
    while i < 6
        invariant
            i <= 6,
            first_input(keycodes@) == first_input(keycodes@.subrange(i as int, 6)),
        decreases 6 - i,
    {
        let key = decode_keycode(keycodes[i]);
        assert(keycodes@.subrange(i as int, 6).drop_first() =~= keycodes@.subrange(i + 1, 6));
        if key.is_some() {
            return key;
        }
        i = i + 1;
    }
    assert(keycodes@.subrange(6, 6).len() == 0);
    None
}

/// The game cell, numbered 1 to 9 row by row from the top left, under numpad
/// key `n`, whose keys are numbered row by row from the bottom left.
pub open spec fn numpad_cell(n: u8) -> u8 {
    if n == 1 {
        7u8
    } else if n == 2 {
        8u8
    } else if n == 3 {
        9u8
    } else if n == 7 {
        1u8
    } else if n == 8 {
        2u8
    } else if n == 9 {
        3u8
    } else {
        n
    }
}

/// Maps a numpad key to the game cell at its place: the keypad's rows are
/// flipped top to bottom.
pub fn numpad_to_cell(n: u8) -> (cell: u8)
    requires
        1 <= n <= 9,
    ensures
        cell == numpad_cell(n),
        1 <= cell <= 9,
{
    match n {
        1 => 7,
        2 => 8,
        3 => 9,
        7 => 1,
        8 => 2,
        9 => 3,
        _ => n,
    }
}

/// The numpad remapping flips the rows of the keypad: it keeps each key in
/// its column, moves it to the mirrored row, and undoes itself, so it is a
/// permutation of the keys 1 to 9.
pub proof fn lemma_numpad_cell_flips_rows(n: u8)
    requires
        1 <= n <= 9,
    ensures
        1 <= numpad_cell(n) <= 9,
        (numpad_cell(n) - 1) % 3 == (n - 1) % 3,
        (numpad_cell(n) - 1) / 3 == 2 - (n - 1) / 3,
        numpad_cell(numpad_cell(n)) == n,
{
}

/// The cell that an input selects in the game: a numpad key from 1 to 9,
/// remapped; every other input selects nothing.
pub open spec fn input_cell(input: KeyboardInput) -> Option<u8> {
    match input {
        KeyboardInput::Numpad(n) => if 1 <= n <= 9 {
            Some(numpad_cell(n))
        } else {
            None
        },
        _ => None,
    }
}

impl KeyboardInput {
    /// The cell this input selects in the game, if it selects one.
    pub fn selected_cell(self) -> (r: Option<u8>)
        ensures
            r == input_cell(self),
    {
        match self {
            KeyboardInput::Numpad(n) => if 1 <= n && n <= 9 {
                Some(numpad_to_cell(n))
            } else {
                None
            },
            _ => None,
        }
    }

    pub fn is_enter(self) -> (r: bool)
        ensures
            r == (self == KeyboardInput::Enter),
    {
        match self {
            KeyboardInput::Enter => true,
            _ => false,
        }
    }
}

} // verus!

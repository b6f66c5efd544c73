//! Keyboard keys and pointer buttons as the menu sees them.
use vstd::prelude::*;
use crate::settings::PieDirection;

verus! {

/// A keyboard key, reduced to what the menu needs to tell apart.
///
/// `Num(d)` is the digit key `d` (`0..=9`), `Letter(c)` the letter key `c`
/// (`'a'..='z'`, lower case), and `Other(n)` any other key, told apart by `n`.
#[derive(Clone, Copy, Debug, PartialEq, Eq, Structural)]
pub enum InputKey {
    Num(u8),
    Letter(char),
    Escape,
    Other(u32),
}

/// A mouse button.
#[derive(Clone, Copy, Debug, PartialEq, Eq, Structural)]
pub enum PointerButton {
    Primary,
    Secondary,
    Middle,
    Extra1,
    Extra2,
}

/// `c` is an ASCII upper-case letter.
pub open spec fn is_ascii_upper(c: char) -> bool {
    'A' <= c && c <= 'Z'
}

/// `c` is an ASCII lower-case letter.
pub open spec fn is_ascii_lower(c: char) -> bool {
    'a' <= c && c <= 'z'
}

/// ASCII lower-casing: upper-case ASCII letters map to their lower-case form,
/// every other character to itself.
pub open spec fn ascii_lower(c: char) -> char {
    if is_ascii_upper(c) {
        ((c as u32) + 32) as char
    } else {
        c
    }
}

/// The key that a mnemonic character stands for: the letter key of its
/// lower-case form when that is an ASCII letter, no key otherwise.
pub open spec fn mnemonic_key(c: char) -> Option<InputKey> {
    if is_ascii_lower(ascii_lower(c)) {
        Some(InputKey::Letter(ascii_lower(c)))
    } else {
        None
    }
}

/// Lower-cases an ASCII letter and leaves every other character as it is.
pub fn to_ascii_lower(c: char) -> (r: char)
    ensures
        r == ascii_lower(c),
{
    if 'A' <= c && c <= 'Z' {
        let b: u8 = c as u8;
        (b + 32) as char
    } else {
        c
    }
}

/// Maps a mnemonic character to its letter key, ignoring case.
pub fn char_to_key(c: char) -> (r: Option<InputKey>)
    ensures
        r == mnemonic_key(c),
{
    let lower = to_ascii_lower(c);
    if 'a' <= lower && lower <= 'z' {
        Some(InputKey::Letter(lower))
    } else {
        None
    }
}

/// The digit key that picks a button in direction `dir`: the digit that sits
/// in that direction on a numeric keypad, seen from its `5` key.
pub open spec fn numpad_digit(dir: PieDirection) -> u8 {
    match dir {
        PieDirection::North => 8,
        PieDirection::NorthEast => 9,
        PieDirection::East => 6,
        PieDirection::SouthEast => 3,
        PieDirection::South => 2,
        PieDirection::SouthWest => 1,
        PieDirection::West => 4,
        PieDirection::NorthWest => 7,
    }
}

/// The key that selects the button in direction `dir`.
pub fn direction_numpad(dir: &PieDirection) -> (r: InputKey)
    ensures
        r == InputKey::Num(numpad_digit(*dir)),
{
    match dir {
        PieDirection::North => InputKey::Num(8),
        PieDirection::NorthEast => InputKey::Num(9),
        PieDirection::East => InputKey::Num(6),
        PieDirection::SouthEast => InputKey::Num(3),
        PieDirection::South => InputKey::Num(2),
        PieDirection::SouthWest => InputKey::Num(1),
        PieDirection::West => InputKey::Num(4),
        PieDirection::NorthWest => InputKey::Num(7),
    }
}

/// Each direction has its own digit key among 1-9, and none of them is the
/// centre key `5`.
pub proof fn lemma_numpad_digits_distinct(a: PieDirection, b: PieDirection)
    ensures
        1 <= numpad_digit(a) <= 9,
        numpad_digit(a) != 5,
        numpad_digit(a) == numpad_digit(b) ==> a == b,
{
}

/// The digit key of each direction is the one at that place on a numeric
/// keypad: 8 up, 9 up-right, 6 right, 3 down-right, 2 down, 1 down-left,
/// 4 left, 7 up-left.
pub proof fn lemma_numpad_digit_layout(d: PieDirection)
    ensures
        d == PieDirection::North ==> numpad_digit(d) == 8,
        d == PieDirection::NorthEast ==> numpad_digit(d) == 9,
        d == PieDirection::East ==> numpad_digit(d) == 6,
        d == PieDirection::SouthEast ==> numpad_digit(d) == 3,
        d == PieDirection::South ==> numpad_digit(d) == 2,
        d == PieDirection::SouthWest ==> numpad_digit(d) == 1,
        d == PieDirection::West ==> numpad_digit(d) == 4,
        d == PieDirection::NorthWest ==> numpad_digit(d) == 7,
{
}

/// Mnemonics ignore case: a character and its lower-case form name the same
/// key, and only ASCII letters name a key at all.
pub proof fn lemma_mnemonic_ignores_case(c: char)
    ensures
        mnemonic_key(c) == mnemonic_key(ascii_lower(c)),
        mnemonic_key(c) is Some <==> (is_ascii_upper(c) || is_ascii_lower(c)),
        is_ascii_upper(c) ==> is_ascii_lower(ascii_lower(c)),
        (is_ascii_upper(c) || is_ascii_lower(c)) ==> mnemonic_key(c) == Some(InputKey::Letter(ascii_lower(c))),
        is_ascii_upper(c) ==> ascii_lower(c) as u32 == c as u32 + 32,
        !is_ascii_upper(c) ==> ascii_lower(c) == c,
{
}

} // verus!

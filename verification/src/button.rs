//! Button definitions and the mnemonic rules that go with them.
use vstd::prelude::*;
use vstd::string::*;
use egui::Color32;
use crate::keys::{ascii_lower, char_to_key, mnemonic_key, to_ascii_lower, InputKey};
use crate::settings::PieDirection;

verus! {

/// `egui::Color32`, carried through unchanged as the fill colour of a button.
#[verifier::external_type_specification]
#[verifier::external_body]
pub struct ExColor32(Color32);

/// What `egui::Color32::from_rgb` returns for the given channels.
pub uninterp spec fn rgb_color(r: u8, g: u8, b: u8) -> Color32;

/// Calls `egui::Color32::from_rgb`, an opaque colour with the given red,
/// green and blue channels and full opacity. The contract only ties the
/// result to its arguments through `rgb_color`; the channel values it holds
/// are not stated.
#[verifier::external_body]
fn color_from_rgb(r: u8, g: u8, b: u8) -> (c: Color32)
    ensures
        c == rgb_color(r, g, b),
{
    Color32::from_rgb(r, g, b)
}

/// A single button passed to the pie menu each frame.
///
/// The pie menu owns rendering; the caller owns the button definitions and passes
/// them to the menu every frame.
pub struct PieButton {
    pub label: String,
    pub direction: PieDirection,
    pub color: Color32,
    pub mnemonic: Option<char>,
}

/// The key that a button's mnemonic stands for, if it has one that names a key.
pub open spec fn button_key(b: PieButton) -> Option<InputKey> {
    match b.mnemonic {
        Some(c) => mnemonic_key(c),
        None => None,
    }
}

impl PieButton {
    /// A button in direction `direction` showing `label`, in the default grey
    /// (red, green and blue all 80) and without a mnemonic.
    pub fn new(direction: PieDirection, label: String) -> (b: Self)
        ensures
            b.direction == direction,
            b.label@ == label@,
            b.color == rgb_color(80, 80, 80),
            b.mnemonic is None,
    {
        PieButton { label, direction, color: color_from_rgb(80, 80, 80), mnemonic: None }
    }

    /// The same button with fill colour `color`.
    pub fn with_color(self, color: Color32) -> (b: Self)
        ensures
            b.color == color,
            b.direction == self.direction,
            b.label@ == self.label@,
            b.mnemonic == self.mnemonic,
    {
        let mut b = self;
        b.color = color;
        b
    }

    /// The same button with mnemonic character `c`.
    pub fn with_mnemonic(self, c: char) -> (b: Self)
        ensures
            b.mnemonic == Some(c),
            b.direction == self.direction,
            b.label@ == self.label@,
            b.color == self.color,
    {
        let mut b = self;
        b.mnemonic = Some(c);
        b
    }
}

/// `i` is the first position in `label` whose character equals `m`,
/// ignoring ASCII case.
pub open spec fn is_first_mnemonic_match(label: Seq<char>, m: char, i: int) -> bool {
    &&& 0 <= i < label.len()
    &&& ascii_lower(label[i]) == ascii_lower(m)
    &&& forall|j: int| 0 <= j < i ==> ascii_lower(#[trigger] label[j]) != ascii_lower(m)
}

/// The position of the character of `label` that the mnemonic `m` marks:
/// its first occurrence, ignoring ASCII case.
pub fn mnemonic_char_index(label: &str, m: char) -> (r: Option<usize>)
    ensures
        match r {
            Some(i) => is_first_mnemonic_match(label@, m, i as int),
            None => forall|j: int| 0 <= j < label@.len() ==> ascii_lower(#[trigger] label@[j]) != ascii_lower(m),
        },
{
    let n = label.unicode_len();
    let target = to_ascii_lower(m);
    let mut i: usize = 0;
    while i < n
        invariant
            n == label@.len(),
            target == ascii_lower(m),
            i <= n,
            forall|j: int| 0 <= j < i ==> ascii_lower(#[trigger] label@[j]) != ascii_lower(m),
        decreases n - i,
    {
        let c = label.get_char(i);
        if to_ascii_lower(c) == target {
            return Some(i);
        }
        i = i + 1;
    }
    None
}

/// The mnemonic marks the same character whatever its case.
pub proof fn lemma_mnemonic_match_ignores_case(label: Seq<char>, m: char, i: int)
    ensures
        is_first_mnemonic_match(label, m, i) == is_first_mnemonic_match(label, ascii_lower(m), i),
{
    assert(ascii_lower(ascii_lower(m)) == ascii_lower(m));
}

/// Two buttons, at `i` before `j`, have mnemonics naming the same key.
pub open spec fn mnemonics_clash(buttons: Seq<PieButton>, i: int, j: int) -> bool {
    &&& 0 <= i < j < buttons.len()
    &&& button_key(buttons[i]) is Some
    &&& button_key(buttons[i]) == button_key(buttons[j])
}

/// Whether two of the buttons have mnemonics that name the same key.
pub fn has_duplicate_mnemonics(buttons: &[PieButton]) -> (r: bool)
    ensures
        r == exists|i: int, j: int| mnemonics_clash(buttons@, i, j),
{
    let n = buttons.len();
    let mut i: usize = 0;
    while i < n
        invariant
            n == buttons@.len(),
            i <= n,
            forall|a: int, b: int| 0 <= a < i ==> !mnemonics_clash(buttons@, a, b),
        decreases n - i,
    {
        let ki = match buttons[i].mnemonic {
            Some(c) => char_to_key(c),
            None => None,
        };
        if ki.is_some() {
            let mut j: usize = i + 1;
            while j < n
                invariant
                    n == buttons@.len(),
                    i < n,
                    i + 1 <= j <= n,
                    ki == button_key(buttons@[i as int]),
                    ki is Some,
                    forall|b: int| i < b < j ==> !mnemonics_clash(buttons@, i as int, b),
                decreases n - j,
            {
                let kj = match buttons[j].mnemonic {
                    Some(c) => char_to_key(c),
                    None => None,
                };
                if kj == ki {
                    assert(mnemonics_clash(buttons@, i as int, j as int));
                    return true;
                }
                j = j + 1;
            }
        }
        i = i + 1;
    }
    false
}

} // verus!

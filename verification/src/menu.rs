//! The menu's interaction state and what it answers to one frame of input.
use vstd::prelude::*;
use crate::button::{button_key, PieButton};
use crate::keys::{
    ascii_lower, char_to_key, direction_numpad, is_ascii_lower, is_ascii_upper, lemma_mnemonic_ignores_case,
    numpad_digit, InputKey, PointerButton,
};
use crate::settings::{PieDirection, PieMenuDismissInput, PieMenuInput, ShowBehavior};

verus! {

/// Where the pointer stands this frame, measured by the caller.
pub struct PointerReading {
    /// The pointer is farther from the menu centre than the trigger threshold.
    pub beyond_trigger: bool,
    /// The pointer is at least the show threshold away from where the menu opened.
    pub beyond_show: bool,
    /// For each button, in order, the angular gap between the pointer's direction
    /// and the button's, as an integer that orders as the gaps do.
    pub angle_gaps: Vec<u32>,
}

/// One frame of input, as the caller read it.
pub struct FrameInput {
    /// The keys pressed this frame.
    pub pressed_keys: Vec<InputKey>,
    /// The pointer buttons clicked this frame.
    pub clicked_buttons: Vec<PointerButton>,
    /// The pointer, when its position is known.
    pub pointer: Option<PointerReading>,
    /// The hotkey that opened the menu is still held.
    pub key_down: bool,
    /// The current time in milliseconds, on a clock that does not go back.
    pub now_ms: u64,
}

/// Outcome of one frame of the menu.
#[derive(Clone, Copy, Debug, PartialEq, Eq, Structural)]
pub enum PieMenuResponse {
    /// A button was activated; value is its index in the slice passed to `show`.
    Selected(usize),
    /// The menu was dismissed without a selection.
    Dismissed,
    /// The hotkey was released before the pointer moved far enough to show the menu.
    QuickTap,
    /// A quick tap that followed another one within the double-tap window.
    DoubleTap,
    /// No action this frame.
    NoAction,
}

/// The interaction state of a menu, as a value.
pub struct MenuModel {
    /// The button under the pointer after the last frame.
    pub selected: Option<usize>,
    /// The release of the hotkey has been answered since the menu opened.
    pub release_handled: bool,
    /// The pointer has moved far enough since the menu opened for it to be shown.
    pub shown: bool,
    /// When the last quick tap that has not yet become part of a double tap happened.
    pub last_tap_ms: Option<u64>,
}

/// Radial (pie) menu: the interaction state that outlives a frame.
///
/// The menu owns interaction state but not button definitions; the caller
/// passes the buttons, and what it read of the input, every frame.
pub struct PieMenu {
    selected_index: Option<usize>,
    release_handled: bool,
    shown: bool,
    last_tap_ms: Option<u64>,
}

impl View for PieMenu {
    type V = MenuModel;

    closed spec fn view(&self) -> MenuModel {
        MenuModel {
            selected: self.selected_index,
            release_handled: self.release_handled,
            shown: self.shown,
            last_tap_ms: self.last_tap_ms,
        }
    }
}

/// The dismiss input `d` happened in `frame`.
pub open spec fn dismissed_by(d: PieMenuDismissInput, frame: FrameInput) -> bool {
    match d {
        PieMenuDismissInput::Key(k) => frame.pressed_keys@.contains(k),
        PieMenuDismissInput::PointerButton(b) => frame.clicked_buttons@.contains(b),
    }
}

/// One of the configured dismiss inputs happened in `frame`.
pub open spec fn dismiss_requested(input: PieMenuInput, frame: FrameInput) -> bool {
    exists|i: int|
        0 <= i < input.dismiss_inputs@.len() && #[trigger] dismissed_by(input.dismiss_inputs@[i], frame)
}

/// The button is picked by a key pressed in `frame`: by its direction's digit
/// key when `numpad`, by its mnemonic key otherwise.
pub open spec fn key_hit(b: PieButton, frame: FrameInput, numpad: bool) -> bool {
    if numpad {
        frame.pressed_keys@.contains(InputKey::Num(numpad_digit(b.direction)))
    } else {
        match button_key(b) {
            Some(k) => frame.pressed_keys@.contains(k),
            None => false,
        }
    }
}

/// `i` is the first button that a key pressed in `frame` picks.
pub open spec fn is_first_key_hit(buttons: Seq<PieButton>, frame: FrameInput, numpad: bool, i: int) -> bool {
    &&& 0 <= i < buttons.len()
    &&& key_hit(buttons[i], frame, numpad)
    &&& forall|j: int| 0 <= j < i ==> !key_hit(#[trigger] buttons[j], frame, numpad)
}

/// The first button that a key pressed in `frame` picks, if any.
pub open spec fn first_key_hit(buttons: Seq<PieButton>, frame: FrameInput, numpad: bool) -> Option<usize> {
    if exists|i: usize| is_first_key_hit(buttons, frame, numpad, i as int) {
        Some(choose|i: usize| is_first_key_hit(buttons, frame, numpad, i as int))
    } else {
        None
    }
}

/// `i` holds the smallest gap, and no earlier position holds one as small.
pub open spec fn is_nearest(gaps: Seq<u32>, i: int) -> bool {
    &&& 0 <= i < gaps.len()
    &&& forall|j: int| 0 <= j < gaps.len() ==> gaps[i] <= #[trigger] gaps[j]
    &&& forall|j: int| 0 <= j < i ==> gaps[i] < #[trigger] gaps[j]
}

/// The first position of the smallest gap, if there are any gaps.
pub open spec fn nearest_index(gaps: Seq<u32>) -> Option<usize> {
    if exists|i: usize| is_nearest(gaps, i as int) {
        Some(choose|i: usize| is_nearest(gaps, i as int))
    } else {
        None
    }
}

/// The button that the pointer points at this frame: the nearest in angle,
/// when the pointer is beyond the trigger threshold and that position names
/// one of the `n` buttons passed in.
pub open spec fn hover_target(frame: FrameInput, n: nat) -> Option<usize> {
    match frame.pointer {
        Some(p) => if p.beyond_trigger {
            match nearest_index(p.angle_gaps@) {
                Some(i) => if i < n {
                    Some(i)
                } else {
                    None
                },
                None => None,
            }
        } else {
            None
        },
        None => None,
    }
}

/// What a primary click answers: the button under the pointer when the pointer
/// is beyond the trigger threshold and the remembered button is one of the `n`
/// buttons passed in, nothing otherwise while the pointer is known, and a
/// dismissal when the pointer's position is unknown.
pub open spec fn click_response(m: MenuModel, frame: FrameInput, n: nat) -> PieMenuResponse {
    match frame.pointer {
        Some(p) => if p.beyond_trigger {
            match m.selected {
                Some(i) => if i < n {
                    PieMenuResponse::Selected(i)
                } else {
                    PieMenuResponse::NoAction
                },
                None => PieMenuResponse::NoAction,
            }
        } else {
            PieMenuResponse::NoAction
        },
        None => PieMenuResponse::Dismissed,
    }
}

/// The last quick tap at `last` and a tap at `now` make a double tap.
pub open spec fn is_double_tap(last: Option<u64>, now: u64, window: u64) -> bool {
    match last {
        Some(t) => t <= now && now - t <= window,
        None => false,
    }
}

/// The state after the pointer has been followed this frame, among `n`
/// buttons: the hovered button is remembered, and the menu counts as shown
/// once it shows instantly or the pointer has moved far enough.
pub open spec fn follow_pointer(m: MenuModel, input: PieMenuInput, frame: FrameInput, n: nat) -> MenuModel {
    MenuModel {
        selected: hover_target(frame, n),
        shown: m.shown || input.show_behavior == ShowBehavior::Instant
            || (frame.pointer matches Some(p) && p.beyond_show),
        ..m
    }
}

/// What the release of the hotkey answers, from the state after tracking.
///
/// Released before the menu was shown, it is a tap: a double tap when the last
/// quick tap lies within the window, a quick tap otherwise. Released after, it
/// selects the button under the pointer, or dismisses the menu when the pointer
/// is back in the centre.
pub open spec fn release_outcome(m: MenuModel, input: PieMenuInput, frame: FrameInput) -> (MenuModel, PieMenuResponse) {
    if !m.shown {
        if is_double_tap(m.last_tap_ms, frame.now_ms, input.double_tap_window_ms) {
            (MenuModel { release_handled: true, last_tap_ms: None, ..m }, PieMenuResponse::DoubleTap)
        } else {
            (MenuModel { release_handled: true, last_tap_ms: Some(frame.now_ms), ..m }, PieMenuResponse::QuickTap)
        }
    } else {
        match frame.pointer {
            Some(p) => if !p.beyond_trigger {
                (m, PieMenuResponse::Dismissed)
            } else {
                match m.selected {
                    Some(i) => (m, PieMenuResponse::Selected(i)),
                    None => (MenuModel { release_handled: true, ..m }, PieMenuResponse::NoAction),
                }
            },
            None => (MenuModel { release_handled: true, ..m }, PieMenuResponse::NoAction),
        }
    }
}

/// The next state and the response of one frame.
///
/// In order: a dismiss input dismisses; a digit key, then a mnemonic key,
/// selects its button; a primary click answers as `click_response` says. None
/// of these touch the state. Otherwise the pointer is followed, and a release
/// of the hotkey not yet answered is answered as `release_outcome` says.
pub open spec fn show_outcome(
    m: MenuModel,
    input: PieMenuInput,
    buttons: Seq<PieButton>,
    frame: FrameInput,
) -> (MenuModel, PieMenuResponse) {
    if dismiss_requested(input, frame) {
        (m, PieMenuResponse::Dismissed)
    } else if input.use_numpad_keys && first_key_hit(buttons, frame, true) is Some {
        (m, PieMenuResponse::Selected(first_key_hit(buttons, frame, true)->0))
    } else if input.use_mnemonic_keys && first_key_hit(buttons, frame, false) is Some {
        (m, PieMenuResponse::Selected(first_key_hit(buttons, frame, false)->0))
    } else if input.select_on_primary_click && frame.clicked_buttons@.contains(PointerButton::Primary) {
        (m, click_response(m, frame, buttons.len()))
    } else {
        let t = follow_pointer(m, input, frame, buttons.len());
        if !frame.key_down && !t.release_handled {
            release_outcome(t, input, frame)
        } else {
            (t, PieMenuResponse::NoAction)
        }
    }
}

/// Only one position can be the first key hit.
proof fn lemma_first_key_hit_unique(buttons: Seq<PieButton>, frame: FrameInput, numpad: bool, i: int, k: int)
    requires
        is_first_key_hit(buttons, frame, numpad, i),
        is_first_key_hit(buttons, frame, numpad, k),
    ensures
        i == k,
{
    if i < k {
        assert(!key_hit(buttons[i], frame, numpad));
    } else if k < i {
        assert(!key_hit(buttons[k], frame, numpad));
    }
}

/// Only one position can be the first of the smallest gaps.
proof fn lemma_nearest_unique(gaps: Seq<u32>, i: int, k: int)
    requires
        is_nearest(gaps, i),
        is_nearest(gaps, k),
    ensures
        i == k,
{
    if i < k {
        assert(gaps[k] < gaps[i]);
        assert(gaps[i] <= gaps[k]);
    } else if k < i {
        assert(gaps[i] < gaps[k]);
        assert(gaps[k] <= gaps[i]);
    }
}

/// Whether `key` is among `keys`.
fn contains_key(keys: &Vec<InputKey>, key: InputKey) -> (r: bool)
    ensures
        r == keys@.contains(key),
{
    let n = keys.len();
    let mut i: usize = 0;
    while i < n
        invariant
            n == keys@.len(),
            i <= n,
            forall|j: int| 0 <= j < i ==> keys@[j] != key,
        decreases n - i,
    {
        if keys[i] == key {
            return true;
        }
        i = i + 1;
    }
    false
}

/// Whether a frame goes on to follow the pointer: no dismiss input, no digit
/// or mnemonic key that picks a button, and no primary click that selects.
pub fn follows_pointer(input: &PieMenuInput, buttons: &[PieButton], frame: &FrameInput) -> (r: bool)
    ensures
        r == quiet_frame(*input, buttons@, *frame),
{
    if dismiss_input_triggered(input, frame) {
        return false;
    }
    if input.use_numpad_keys && key_selection(buttons, frame, true).is_some() {
        return false;
    }
    if input.use_mnemonic_keys && key_selection(buttons, frame, false).is_some() {
        return false;
    }
    !(input.select_on_primary_click && contains_button(&frame.clicked_buttons, PointerButton::Primary))
}

/// Whether `button` is among `buttons`.
fn contains_button(buttons: &Vec<PointerButton>, button: PointerButton) -> (r: bool)
    ensures
        r == buttons@.contains(button),
{
    let n = buttons.len();
    let mut i: usize = 0;
    while i < n
        invariant
            n == buttons@.len(),
            i <= n,
            forall|j: int| 0 <= j < i ==> buttons@[j] != button,
        decreases n - i,
    {
        if buttons[i] == button {
            return true;
        }
        i = i + 1;
    }
    false
}

/// Whether one of the configured dismiss inputs happened in `frame`.
pub fn dismiss_input_triggered(input: &PieMenuInput, frame: &FrameInput) -> (r: bool)
    ensures
        r == dismiss_requested(*input, *frame),
{
    let n = input.dismiss_inputs.len();
    let mut i: usize = 0;
    while i < n
        invariant
            n == input.dismiss_inputs@.len(),
            i <= n,
            forall|j: int| 0 <= j < i ==> !#[trigger] dismissed_by(input.dismiss_inputs@[j], *frame),
        decreases n - i,
    {
        let hit = match input.dismiss_inputs[i] {
            PieMenuDismissInput::Key(k) => contains_key(&frame.pressed_keys, k),
            PieMenuDismissInput::PointerButton(b) => contains_button(&frame.clicked_buttons, b),
        };
        if hit {
            assert(dismissed_by(input.dismiss_inputs@[i as int], *frame));
            return true;
        }
        i = i + 1;
    }
    false
}

/// Whether a key pressed in `frame` picks `button`: its direction's digit key
/// when `numpad`, its mnemonic key otherwise.
fn button_key_pressed(button: &PieButton, frame: &FrameInput, numpad: bool) -> (r: bool)
    ensures
        r == key_hit(*button, *frame, numpad),
{
    if numpad {
        contains_key(&frame.pressed_keys, direction_numpad(&button.direction))
    } else {
        let key = match button.mnemonic {
            Some(c) => char_to_key(c),
            None => None,
        };
        match key {
            Some(k) => contains_key(&frame.pressed_keys, k),
            None => false,
        }
    }
}

/// The first button that a key pressed in `frame` picks: by its direction's
/// digit key when `numpad`, by its mnemonic key otherwise.
pub fn key_selection(buttons: &[PieButton], frame: &FrameInput, numpad: bool) -> (r: Option<usize>)
    ensures
        r == first_key_hit(buttons@, *frame, numpad),
{
    let n = buttons.len();
    let mut i: usize = 0;
    while i < n
        invariant
            n == buttons@.len(),
            i <= n,
            forall|j: int| 0 <= j < i ==> !key_hit(#[trigger] buttons@[j], *frame, numpad),
        decreases n - i,
    {
        if button_key_pressed(&buttons[i], frame, numpad) {
            proof {
                assert(is_first_key_hit(buttons@, *frame, numpad, i as int));
                let k = choose|k: usize| is_first_key_hit(buttons@, *frame, numpad, k as int);
                lemma_first_key_hit_unique(buttons@, *frame, numpad, i as int, k as int);
            }
            return Some(i);
        }
        i = i + 1;
    }
    proof {
        assert forall|k: usize| !is_first_key_hit(buttons@, *frame, numpad, k as int) by {
            if 0 <= k < buttons@.len() {
                assert(!key_hit(buttons@[k as int], *frame, numpad));
            }
        }
    }
    None
}

/// The index of the smallest gap, the first one where several are smallest;
/// `None` when there are no gaps.
pub fn nearest_button(gaps: &Vec<u32>) -> (r: Option<usize>)
    ensures
        r == nearest_index(gaps@),
        r is None <==> gaps@.len() == 0,
{
    let n = gaps.len();
    if n == 0 {
        proof {
            assert forall|k: usize| !is_nearest(gaps@, k as int) by {}
        }
        return None;
    }
    let mut best: usize = 0;
    let mut i: usize = 1;
    while i < n
        invariant
            n == gaps@.len(),
            1 <= i <= n,
            best < i,
            forall|j: int| 0 <= j < i ==> gaps@[best as int] <= #[trigger] gaps@[j],
            forall|j: int| 0 <= j < best ==> gaps@[best as int] < #[trigger] gaps@[j],
        decreases n - i,
    {
        if gaps[i] < gaps[best] {
            best = i;
        }
        i = i + 1;
    }
    proof {
        assert(is_nearest(gaps@, best as int));
        let k = choose|k: usize| is_nearest(gaps@, k as int);
        lemma_nearest_unique(gaps@, best as int, k as int);
    }
    Some(best)
}

/// The state right after the menu is opened again: no selection, no release
/// answered, not shown, and the last quick tap kept.
pub open spec fn reopened(m: MenuModel) -> MenuModel {
    MenuModel { selected: None, release_handled: false, shown: false, last_tap_ms: m.last_tap_ms }
}

impl PieMenu {
    /// A closed menu with no selection and no tap remembered.
    pub fn new() -> (m: Self)
        ensures
            m@ == (MenuModel { selected: None, release_handled: false, shown: false, last_tap_ms: None }),
    {
        PieMenu { selected_index: None, release_handled: false, shown: false, last_tap_ms: None }
    }

    /// Call this when the menu is opened to reset interaction state.
    ///
    /// Forgets the selection, the release and whether the menu was shown; the
    /// last quick tap is kept, so that a tap in this opening can complete a
    /// double tap begun in the previous one.
    pub fn open(&mut self)
        ensures
            final(self)@ == reopened(old(self)@),
    {
        self.release_handled = false;
        self.selected_index = None;
        self.shown = false;
    }

    /// The button under the pointer after the last frame.
    pub fn selected_index(&self) -> (r: Option<usize>)
        ensures
            r == self@.selected,
    {
        self.selected_index
    }

    /// Whether the pointer has moved far enough since the menu opened for it
    /// to be drawn.
    pub fn is_shown(&self) -> (r: bool)
        ensures
            r == self@.shown,
    {
        self.shown
    }

    /// Whether the menu is drawn in a frame, given whether that frame went on
    /// to follow the pointer (see `follows_pointer`): it is drawn in such a
    /// frame, whatever the release of the hotkey answered in it, once the
    /// pointer has moved far enough for it to be shown. A frame answered by a
    /// dismiss input, a digit or mnemonic key or a primary click draws nothing.
    pub fn draws_menu(&self, followed_pointer: bool) -> (r: bool)
        ensures
            r == (followed_pointer && self@.shown),
    {
        followed_pointer && self.shown
    }

    /// Answers one frame of input.
    ///
    /// `buttons` are the buttons relevant for the current context; the menu does
    /// not store them. The response and the new state are those of `show_outcome`.
    pub fn show(&mut self, buttons: &[PieButton], frame: &FrameInput, input: &PieMenuInput) -> (r: PieMenuResponse)
        ensures
            (final(self)@, r) == show_outcome(old(self)@, *input, buttons@, *frame),
    {
        // Early exit: a dismiss input.
        if dismiss_input_triggered(input, frame) {
            return PieMenuResponse::Dismissed;
        }
        // Digit key selection.
        if input.use_numpad_keys {
            if let Some(i) = key_selection(buttons, frame, true) {
                return PieMenuResponse::Selected(i);
            }
        }
        // Mnemonic key selection.
        if input.use_mnemonic_keys {
            if let Some(i) = key_selection(buttons, frame, false) {
                return PieMenuResponse::Selected(i);
            }
        }
        // Primary click selection.
        if input.select_on_primary_click && contains_button(&frame.clicked_buttons, PointerButton::Primary) {
            return match &frame.pointer {
                Some(p) => if p.beyond_trigger {
                    match self.selected_index {
                        Some(i) => if i < buttons.len() {
                            PieMenuResponse::Selected(i)
                        } else {
                            PieMenuResponse::NoAction
                        },
                        None => PieMenuResponse::NoAction,
                    }
                } else {
                    PieMenuResponse::NoAction
                },
                None => PieMenuResponse::Dismissed,
            };
        }
        // Follow the pointer.
        self.selected_index = match &frame.pointer {
            Some(p) => if p.beyond_trigger {
                match nearest_button(&p.angle_gaps) {
                    Some(i) => if i < buttons.len() {
                        Some(i)
                    } else {
                        None
                    },
                    None => None,
                }
            } else {
                None
            },
            None => None,
        };
        if input.show_behavior == ShowBehavior::Instant {
            self.shown = true;
        }
        if let Some(p) = &frame.pointer {
            if p.beyond_show {
                self.shown = true;
            }
        }
        // Release of the hotkey.
        if !frame.key_down && !self.release_handled {
            if !self.shown {
                let double = match self.last_tap_ms {
                    Some(t) => t <= frame.now_ms && frame.now_ms - t <= input.double_tap_window_ms,
                    None => false,
                };
                self.release_handled = true;
                if double {
                    self.last_tap_ms = None;
                    return PieMenuResponse::DoubleTap;
                } else {
                    self.last_tap_ms = Some(frame.now_ms);
                    return PieMenuResponse::QuickTap;
                }
            }
            if let Some(p) = &frame.pointer {
                if !p.beyond_trigger {
                    return PieMenuResponse::Dismissed;
                } else if let Some(i) = self.selected_index {
                    return PieMenuResponse::Selected(i);
                }
            }
            self.release_handled = true;
        }
        PieMenuResponse::NoAction
    }
}

impl Default for PieMenu {
    fn default() -> (m: Self)
        ensures
            m@ == (MenuModel { selected: None, release_handled: false, shown: false, last_tap_ms: None }),
    {
        PieMenu::new()
    }
}

/// Nothing in the frame picks a button before the pointer is followed: no
/// dismiss input, no digit or mnemonic key that picks a button (where those are
/// switched on), and no primary click (where clicks select).
pub open spec fn quiet_frame(input: PieMenuInput, buttons: Seq<PieButton>, frame: FrameInput) -> bool {
    &&& !dismiss_requested(input, frame)
    &&& !(input.use_numpad_keys && first_key_hit(buttons, frame, true) is Some)
    &&& !(input.use_mnemonic_keys && first_key_hit(buttons, frame, false) is Some)
    &&& !(input.select_on_primary_click && frame.clicked_buttons@.contains(PointerButton::Primary))
}

/// A dismiss input dismisses the menu, whatever else the frame holds, and
/// leaves its state as it was.
pub proof fn lemma_dismiss_takes_precedence(
    m: MenuModel,
    input: PieMenuInput,
    buttons: Seq<PieButton>,
    frame: FrameInput,
)
    requires
        dismiss_requested(input, frame),
    ensures
        show_outcome(m, input, buttons, frame) == (m, PieMenuResponse::Dismissed),
{
}

/// With the default dismiss inputs, Escape, the `5` key and a secondary click
/// each dismiss the menu.
pub proof fn lemma_default_dismiss_inputs(
    m: MenuModel,
    input: PieMenuInput,
    buttons: Seq<PieButton>,
    frame: FrameInput,
)
    requires
        input.dismiss_inputs@ == PieMenuInput::default_dismiss_inputs(),
        frame.pressed_keys@.contains(InputKey::Escape)
            || frame.pressed_keys@.contains(InputKey::Num(5))
            || frame.clicked_buttons@.contains(PointerButton::Secondary),
    ensures
        show_outcome(m, input, buttons, frame) == (m, PieMenuResponse::Dismissed),
{
    if frame.pressed_keys@.contains(InputKey::Escape) {
        assert(dismissed_by(input.dismiss_inputs@[0], frame));
    } else if frame.pressed_keys@.contains(InputKey::Num(5)) {
        assert(dismissed_by(input.dismiss_inputs@[1], frame));
    } else {
        assert(dismissed_by(input.dismiss_inputs@[2], frame));
    }
}

/// A digit key picks the first button whose direction it names, when digit
/// keys are on and no dismiss input came with it; the state is left as it was.
pub proof fn lemma_numpad_selects(
    m: MenuModel,
    input: PieMenuInput,
    buttons: Seq<PieButton>,
    frame: FrameInput,
    i: usize,
)
    requires
        !dismiss_requested(input, frame),
        input.use_numpad_keys,
        is_first_key_hit(buttons, frame, true, i as int),
    ensures
        show_outcome(m, input, buttons, frame) == (m, PieMenuResponse::Selected(i)),
{
    let k = choose|k: usize| is_first_key_hit(buttons, frame, true, k as int);
    lemma_first_key_hit_unique(buttons, frame, true, i as int, k as int);
}

/// A mnemonic key picks the first button whose mnemonic names it, ignoring
/// case, when mnemonics are on and neither a dismiss input nor a digit key
/// that picks a button came with it; the state is left as it was.
pub proof fn lemma_mnemonic_selects(
    m: MenuModel,
    input: PieMenuInput,
    buttons: Seq<PieButton>,
    frame: FrameInput,
    i: usize,
)
    requires
        !dismiss_requested(input, frame),
        !(input.use_numpad_keys && first_key_hit(buttons, frame, true) is Some),
        input.use_mnemonic_keys,
        is_first_key_hit(buttons, frame, false, i as int),
    ensures
        show_outcome(m, input, buttons, frame) == (m, PieMenuResponse::Selected(i)),
{
    let k = choose|k: usize| is_first_key_hit(buttons, frame, false, k as int);
    lemma_first_key_hit_unique(buttons, frame, false, i as int, k as int);
}

/// Holding the hotkey, moving out to a button and releasing it selects that
/// button.
pub proof fn lemma_release_over_button_selects(
    m: MenuModel,
    input: PieMenuInput,
    buttons: Seq<PieButton>,
    frame: FrameInput,
    p: PointerReading,
    i: usize,
)
    requires
        quiet_frame(input, buttons, frame),
        !m.release_handled,
        m.shown,
        !frame.key_down,
        frame.pointer == Some(p),
        p.beyond_trigger,
        is_nearest(p.angle_gaps@, i as int),
        i < buttons.len(),
    ensures
        show_outcome(m, input, buttons, frame).1 == PieMenuResponse::Selected(i),
{
    let k = choose|k: usize| is_nearest(p.angle_gaps@, k as int);
    lemma_nearest_unique(p.angle_gaps@, i as int, k as int);
}

/// Holding the hotkey, moving out and back to the centre and releasing it
/// dismisses the menu.
pub proof fn lemma_release_in_centre_dismisses(
    m: MenuModel,
    input: PieMenuInput,
    buttons: Seq<PieButton>,
    frame: FrameInput,
    p: PointerReading,
)
    requires
        quiet_frame(input, buttons, frame),
        !m.release_handled,
        m.shown,
        !frame.key_down,
        frame.pointer == Some(p),
        !p.beyond_trigger,
    ensures
        show_outcome(m, input, buttons, frame).1 == PieMenuResponse::Dismissed,
{
}

/// Releasing the hotkey before the pointer has moved far enough to show the
/// menu is a tap: a quick tap, or a double tap when the last quick tap lies
/// within the window. Taps come from nothing else.
pub proof fn lemma_taps(m: MenuModel, input: PieMenuInput, buttons: Seq<PieButton>, frame: FrameInput)
    ensures
        ({
            let r = show_outcome(m, input, buttons, frame).1;
            (r == PieMenuResponse::QuickTap || r == PieMenuResponse::DoubleTap) <==> {
                &&& quiet_frame(input, buttons, frame)
                &&& !m.release_handled
                &&& !frame.key_down
                &&& !follow_pointer(m, input, frame, buttons.len()).shown
            }
        }),
        ({
            let r = show_outcome(m, input, buttons, frame).1;
            r == PieMenuResponse::DoubleTap <==> {
                &&& quiet_frame(input, buttons, frame)
                &&& !m.release_handled
                &&& !frame.key_down
                &&& !follow_pointer(m, input, frame, buttons.len()).shown
                &&& is_double_tap(m.last_tap_ms, frame.now_ms, input.double_tap_window_ms)
            }
        }),
{
}

/// Two quick taps within the double-tap window make a double tap: after a
/// frame answered with a quick tap, reopening the menu and tapping again no
/// later than the window allows answers a double tap, and forgets the tap.
pub proof fn lemma_two_quick_taps_make_a_double_tap(
    m: MenuModel,
    input: PieMenuInput,
    buttons: Seq<PieButton>,
    first: FrameInput,
    second: FrameInput,
)
    requires
        show_outcome(m, input, buttons, first).1 == PieMenuResponse::QuickTap,
        quiet_frame(input, buttons, second),
        !second.key_down,
        !(second.pointer matches Some(p) && p.beyond_show),
        first.now_ms <= second.now_ms <= first.now_ms + input.double_tap_window_ms,
    ensures
        show_outcome(m, input, buttons, first).0.last_tap_ms == Some(first.now_ms),
        ({
            let again = show_outcome(reopened(show_outcome(m, input, buttons, first).0), input, buttons, second);
            again.1 == PieMenuResponse::DoubleTap && again.0.last_tap_ms is None
        }),
{
}

/// The release of the hotkey is answered with a tap at most once per opening:
/// once answered, it stays answered, and the menu stays shown once shown,
/// until it is opened again.
pub proof fn lemma_release_answered_once(
    m: MenuModel,
    input: PieMenuInput,
    buttons: Seq<PieButton>,
    frame: FrameInput,
)
    ensures
        ({
            let out = show_outcome(m, input, buttons, frame);
            &&& m.release_handled ==> out.0.release_handled
            &&& m.release_handled ==> out.1 != PieMenuResponse::QuickTap && out.1 != PieMenuResponse::DoubleTap
            &&& m.shown ==> out.0.shown
        }),
{
}

/// A selection always names one of the buttons passed in to this very frame,
/// whatever the state; the remembered button is either left as it was or
/// replaced by one of those buttons.
pub proof fn lemma_selection_in_range(
    m: MenuModel,
    input: PieMenuInput,
    buttons: Seq<PieButton>,
    frame: FrameInput,
)
    ensures
        ({
            let out = show_outcome(m, input, buttons, frame);
            &&& out.1 matches PieMenuResponse::Selected(i) ==> i < buttons.len()
            &&& out.0.selected == m.selected || (out.0.selected matches Some(i) ==> i < buttons.len())
        }),
{
    if first_key_hit(buttons, frame, true) is Some {
        let k = choose|k: usize| is_first_key_hit(buttons, frame, true, k as int);
        assert(is_first_key_hit(buttons, frame, true, k as int));
    }
    if first_key_hit(buttons, frame, false) is Some {
        let k = choose|k: usize| is_first_key_hit(buttons, frame, false, k as int);
        assert(is_first_key_hit(buttons, frame, false, k as int));
    }
    if let Some(p) = frame.pointer {
        if nearest_index(p.angle_gaps@) is Some {
            let k = choose|k: usize| is_nearest(p.angle_gaps@, k as int);
            assert(is_nearest(p.angle_gaps@, k as int));
        }
    }
}

/// In the instant show mode a release is never answered with a tap.
pub proof fn lemma_instant_mode_never_taps(
    m: MenuModel,
    input: PieMenuInput,
    buttons: Seq<PieButton>,
    frame: FrameInput,
)
    requires
        input.show_behavior == ShowBehavior::Instant,
    ensures
        show_outcome(m, input, buttons, frame).1 != PieMenuResponse::QuickTap,
        show_outcome(m, input, buttons, frame).1 != PieMenuResponse::DoubleTap,
{
}

/// The state after a run of frames, each with the buttons passed in with it,
/// and no opening of the menu in between.
pub open spec fn run_frames(
    m: MenuModel,
    input: PieMenuInput,
    frames: Seq<(Seq<PieButton>, FrameInput)>,
) -> MenuModel
    decreases frames.len(),
{
    if frames.len() == 0 {
        m
    } else {
        run_frames(show_outcome(m, input, frames[0].0, frames[0].1).0, input, frames.drop_first())
    }
}

/// Once answered, the release stays answered through any run of frames.
proof fn lemma_run_keeps_release_answered(
    m: MenuModel,
    input: PieMenuInput,
    frames: Seq<(Seq<PieButton>, FrameInput)>,
)
    requires
        m.release_handled,
    ensures
        run_frames(m, input, frames).release_handled,
    decreases frames.len(),
{
    if frames.len() > 0 {
        lemma_release_answered_once(m, input, frames[0].0, frames[0].1);
        lemma_run_keeps_release_answered(
            show_outcome(m, input, frames[0].0, frames[0].1).0,
            input,
            frames.drop_first(),
        );
    }
}

/// A key release is acted on at most once per opening: once a frame with the
/// hotkey up and nothing else to act on has answered nothing, every later
/// such frame, after any run of frames and no opening, answers nothing too,
/// wherever the pointer is.
pub proof fn lemma_release_acted_on_once(
    m: MenuModel,
    input: PieMenuInput,
    first_buttons: Seq<PieButton>,
    first: FrameInput,
    between: Seq<(Seq<PieButton>, FrameInput)>,
    buttons: Seq<PieButton>,
    frame: FrameInput,
)
    requires
        quiet_frame(input, first_buttons, first),
        !first.key_down,
        show_outcome(m, input, first_buttons, first).1 == PieMenuResponse::NoAction,
        quiet_frame(input, buttons, frame),
        !frame.key_down,
    ensures
        ({
            let before = run_frames(show_outcome(m, input, first_buttons, first).0, input, between);
            show_outcome(before, input, buttons, frame).1 == PieMenuResponse::NoAction
        }),
{
    let after_first = show_outcome(m, input, first_buttons, first).0;
    assert(after_first.release_handled);
    lemma_run_keeps_release_answered(after_first, input, between);
}

/// A dismiss input is triggered exactly by its own key being pressed, or its
/// own pointer button being clicked, in the frame; and one of the configured
/// inputs dismisses exactly when one of them is so triggered.
pub proof fn lemma_dismiss_input_meaning(k: InputKey, b: PointerButton, input: PieMenuInput, frame: FrameInput)
    ensures
        dismissed_by(PieMenuDismissInput::Key(k), frame) <==> frame.pressed_keys@.contains(k),
        dismissed_by(PieMenuDismissInput::PointerButton(b), frame) <==> frame.clicked_buttons@.contains(b),
        dismiss_requested(input, frame) <==> exists|j: int| #![trigger input.dismiss_inputs@[j]] 0 <= j < input.dismiss_inputs@.len() && {
            let e = input.dismiss_inputs@[j];
            ||| e matches PieMenuDismissInput::Key(k) && frame.pressed_keys@.contains(k)
            ||| e matches PieMenuDismissInput::PointerButton(b) && frame.clicked_buttons@.contains(b)
        },
{
    if dismiss_requested(input, frame) {
        let j = choose|j: int| 0 <= j < input.dismiss_inputs@.len() && #[trigger] dismissed_by(input.dismiss_inputs@[j], frame);
        assert(0 <= j < input.dismiss_inputs@.len());
    }
    if exists|j: int| #![trigger input.dismiss_inputs@[j]] 0 <= j < input.dismiss_inputs@.len() && {
        let e = input.dismiss_inputs@[j];
        ||| e matches PieMenuDismissInput::Key(k) && frame.pressed_keys@.contains(k)
        ||| e matches PieMenuDismissInput::PointerButton(b) && frame.clicked_buttons@.contains(b)
    } {
        let j = choose|j: int| #![trigger input.dismiss_inputs@[j]] 0 <= j < input.dismiss_inputs@.len() && {
            let e = input.dismiss_inputs@[j];
            ||| e matches PieMenuDismissInput::Key(k) && frame.pressed_keys@.contains(k)
            ||| e matches PieMenuDismissInput::PointerButton(b) && frame.clicked_buttons@.contains(b)
        };
        assert(dismissed_by(input.dismiss_inputs@[j], frame));
    }
}

/// A configured dismiss input that happens dismisses the menu: its key is
/// pressed, or its pointer button clicked, whichever button that is.
pub proof fn lemma_any_configured_input_dismisses(
    m: MenuModel,
    input: PieMenuInput,
    buttons: Seq<PieButton>,
    frame: FrameInput,
    j: int,
)
    requires
        0 <= j < input.dismiss_inputs@.len(),
        ({
            let e = input.dismiss_inputs@[j];
            ||| e matches PieMenuDismissInput::Key(k) && frame.pressed_keys@.contains(k)
            ||| e matches PieMenuDismissInput::PointerButton(b) && frame.clicked_buttons@.contains(b)
        }),
    ensures
        show_outcome(m, input, buttons, frame) == (m, PieMenuResponse::Dismissed),
{
    assert(dismissed_by(input.dismiss_inputs@[j], frame));
}

/// A button is picked by the digit keys exactly when the digit of its
/// direction, as laid out on a numeric keypad, is pressed: the same for all
/// eight directions, diagonals included.
pub proof fn lemma_numpad_hit_meaning(b: PieButton, frame: FrameInput)
    ensures
        key_hit(b, frame, true) <==> frame.pressed_keys@.contains(InputKey::Num(
            match b.direction {
                PieDirection::North => 8u8,
                PieDirection::NorthEast => 9u8,
                PieDirection::East => 6u8,
                PieDirection::SouthEast => 3u8,
                PieDirection::South => 2u8,
                PieDirection::SouthWest => 1u8,
                PieDirection::West => 4u8,
                PieDirection::NorthWest => 7u8,
            },
        )),
{
}

/// A button is picked by the mnemonic keys exactly when it has an ASCII
/// letter of either case as mnemonic and the letter key of that letter's
/// lower-case form is pressed; a mnemonic in upper case picks it as the same
/// letter in lower case does.
pub proof fn lemma_mnemonic_hit_meaning(b: PieButton, frame: FrameInput)
    ensures
        key_hit(b, frame, false) <==> (b.mnemonic matches Some(c) && (is_ascii_upper(c) || is_ascii_lower(c))
            && frame.pressed_keys@.contains(InputKey::Letter(ascii_lower(c)))),
        b.mnemonic matches Some(c) ==> (is_ascii_upper(c) ==> key_hit(b, frame, false)
            == key_hit(PieButton { mnemonic: Some(ascii_lower(c)), ..b }, frame, false)),
{
    if let Some(c) = b.mnemonic {
        lemma_mnemonic_ignores_case(c);
        lemma_mnemonic_ignores_case(ascii_lower(c));
    }
}

/// With no dismiss input happening, a digit key picks the first button whose
/// direction's keypad digit it is.
pub proof fn lemma_show_selects_by_digit(
    m: MenuModel,
    input: PieMenuInput,
    buttons: Seq<PieButton>,
    frame: FrameInput,
    i: usize,
)
    requires
        forall|j: int| 0 <= j < input.dismiss_inputs@.len() ==> !(match #[trigger] input.dismiss_inputs@[j] {
            PieMenuDismissInput::Key(k) => frame.pressed_keys@.contains(k),
            PieMenuDismissInput::PointerButton(b) => frame.clicked_buttons@.contains(b),
        }),
        input.use_numpad_keys,
        i < buttons.len(),
        frame.pressed_keys@.contains(InputKey::Num(numpad_digit(buttons[i as int].direction))),
        forall|j: int| 0 <= j < i ==> !frame.pressed_keys@.contains(
            InputKey::Num(numpad_digit(#[trigger] buttons[j].direction)),
        ),
    ensures
        show_outcome(m, input, buttons, frame) == (m, PieMenuResponse::Selected(i)),
{
    lemma_dismiss_input_meaning(InputKey::Escape, PointerButton::Primary, input, frame);
    assert forall|j: int| 0 <= j < i implies !key_hit(#[trigger] buttons[j], frame, true) by {
        lemma_numpad_hit_meaning(buttons[j], frame);
        crate::keys::lemma_numpad_digit_layout(buttons[j].direction);
    }
    lemma_numpad_hit_meaning(buttons[i as int], frame);
    crate::keys::lemma_numpad_digit_layout(buttons[i as int].direction);
    lemma_numpad_selects(m, input, buttons, frame, i);
}

/// With no dismiss input happening and no digit key pressed, a letter key
/// picks the first button whose mnemonic is that letter in either case.
pub proof fn lemma_show_selects_by_mnemonic_letter(
    m: MenuModel,
    input: PieMenuInput,
    buttons: Seq<PieButton>,
    frame: FrameInput,
    i: usize,
    c: char,
)
    requires
        forall|j: int| 0 <= j < input.dismiss_inputs@.len() ==> !(match #[trigger] input.dismiss_inputs@[j] {
            PieMenuDismissInput::Key(k) => frame.pressed_keys@.contains(k),
            PieMenuDismissInput::PointerButton(b) => frame.clicked_buttons@.contains(b),
        }),
        forall|j: int| 0 <= j < frame.pressed_keys@.len() ==> !(#[trigger] frame.pressed_keys@[j] is Num),
        input.use_mnemonic_keys,
        i < buttons.len(),
        buttons[i as int].mnemonic == Some(c),
        is_ascii_upper(c) || is_ascii_lower(c),
        frame.pressed_keys@.contains(InputKey::Letter(ascii_lower(c))),
        forall|j: int| 0 <= j < i ==> !(#[trigger] buttons[j].mnemonic matches Some(e) && (is_ascii_upper(e)
            || is_ascii_lower(e)) && frame.pressed_keys@.contains(InputKey::Letter(ascii_lower(e)))),
    ensures
        show_outcome(m, input, buttons, frame) == (m, PieMenuResponse::Selected(i)),
{
    lemma_dismiss_input_meaning(InputKey::Escape, PointerButton::Primary, input, frame);
    assert forall|k: usize| !is_first_key_hit(buttons, frame, true, k as int) by {
        if 0 <= k < buttons.len() {
            let key = InputKey::Num(numpad_digit(buttons[k as int].direction));
            if frame.pressed_keys@.contains(key) {
                let j = choose|j: int| 0 <= j < frame.pressed_keys@.len() && frame.pressed_keys@[j] == key;
                assert(frame.pressed_keys@[j] is Num);
            }
        }
    }
    assert forall|j: int| 0 <= j < i implies !key_hit(#[trigger] buttons[j], frame, false) by {
        lemma_mnemonic_hit_meaning(buttons[j], frame);
    }
    lemma_mnemonic_hit_meaning(buttons[i as int], frame);
    lemma_mnemonic_selects(m, input, buttons, frame, i);
}

/// Whether a frame goes on to follow the pointer depends only on its dismiss
/// inputs, its key presses and its clicks, never on whether the hotkey is
/// held, where the pointer is or the time: it does so exactly when no
/// configured dismiss input happens, no digit key of a button's direction is
/// pressed (where digit keys are on), no mnemonic letter of a button is
/// pressed (where mnemonics are on), and no primary click selects. (The
/// buttons are those of a slice, so there are at most `usize::MAX` of them.)
pub proof fn lemma_follows_pointer_meaning(
    input: PieMenuInput,
    buttons: Seq<PieButton>,
    frame: FrameInput,
    key_down: bool,
    pointer: Option<PointerReading>,
    now_ms: u64,
)
    requires
        buttons.len() <= usize::MAX,
    ensures
        quiet_frame(input, buttons, frame) == quiet_frame(
            input,
            buttons,
            FrameInput { key_down, pointer, now_ms, ..frame },
        ),
        quiet_frame(input, buttons, frame) <==> {
            &&& forall|j: int| 0 <= j < input.dismiss_inputs@.len() ==> !(match #[trigger] input.dismiss_inputs@[j] {
                PieMenuDismissInput::Key(k) => frame.pressed_keys@.contains(k),
                PieMenuDismissInput::PointerButton(b) => frame.clicked_buttons@.contains(b),
            })
            &&& input.use_numpad_keys ==> forall|j: int| 0 <= j < buttons.len() ==> !frame.pressed_keys@.contains(
                InputKey::Num(numpad_digit(#[trigger] buttons[j].direction)),
            )
            &&& input.use_mnemonic_keys ==> forall|j: int| 0 <= j < buttons.len() ==> !(#[trigger] buttons[j].mnemonic matches Some(e)
                && (is_ascii_upper(e) || is_ascii_lower(e)) && frame.pressed_keys@.contains(InputKey::Letter(ascii_lower(e))))
            &&& !(input.select_on_primary_click && frame.clicked_buttons@.contains(PointerButton::Primary))
        },
{
    let f2 = FrameInput { key_down, pointer, now_ms, ..frame };
    lemma_dismiss_input_meaning(InputKey::Escape, PointerButton::Primary, input, frame);
    lemma_dismiss_input_meaning(InputKey::Escape, PointerButton::Primary, input, f2);
    assert(dismiss_requested(input, frame) == dismiss_requested(input, f2));
    assert forall|j: int, nb: bool| 0 <= j < buttons.len() implies key_hit(buttons[j], frame, nb) == key_hit(buttons[j], f2, nb) by {}
    assert(first_key_hit(buttons, frame, true) == first_key_hit(buttons, f2, true)) by {
        assert forall|k: usize| is_first_key_hit(buttons, frame, true, k as int) == is_first_key_hit(buttons, f2, true, k as int) by {}
    }
    assert(first_key_hit(buttons, frame, false) == first_key_hit(buttons, f2, false)) by {
        assert forall|k: usize| is_first_key_hit(buttons, frame, false, k as int) == is_first_key_hit(buttons, f2, false, k as int) by {}
    }
    // Some hit exists exactly when a first hit exists.
    lemma_first_hit_exists(buttons, frame, true);
    lemma_first_hit_exists(buttons, frame, false);
    assert forall|j: int| 0 <= j < buttons.len() implies (key_hit(#[trigger] buttons[j], frame, true)
        <==> frame.pressed_keys@.contains(InputKey::Num(numpad_digit(buttons[j].direction)))) by {
        lemma_numpad_hit_meaning(buttons[j], frame);
        crate::keys::lemma_numpad_digit_layout(buttons[j].direction);
    }
    assert forall|j: int| 0 <= j < buttons.len() implies (key_hit(#[trigger] buttons[j], frame, false)
        <==> (buttons[j].mnemonic matches Some(e) && (is_ascii_upper(e) || is_ascii_lower(e))
            && frame.pressed_keys@.contains(InputKey::Letter(ascii_lower(e))))) by {
        lemma_mnemonic_hit_meaning(buttons[j], frame);
    }
}

/// Some button is hit exactly when there is a first one.
proof fn lemma_first_hit_exists(buttons: Seq<PieButton>, frame: FrameInput, numpad: bool)
    requires
        buttons.len() <= usize::MAX,
    ensures
        first_key_hit(buttons, frame, numpad) is Some <==> exists|j: int| 0 <= j < buttons.len()
            && #[trigger] key_hit(buttons[j], frame, numpad),
{
    if exists|j: int| 0 <= j < buttons.len() && #[trigger] key_hit(buttons[j], frame, numpad) {
        let j0 = choose|j: int| 0 <= j < buttons.len() && #[trigger] key_hit(buttons[j], frame, numpad);
        let f = lemma_smallest_hit(buttons, frame, numpad, j0);
        assert(is_first_key_hit(buttons, frame, numpad, (f as usize) as int));
    } else {
        assert forall|k: usize| !is_first_key_hit(buttons, frame, numpad, k as int) by {
            if 0 <= k < buttons.len() {
                assert(!key_hit(buttons[k as int], frame, numpad));
            }
        }
    }
    if first_key_hit(buttons, frame, numpad) is Some {
        let k = choose|k: usize| is_first_key_hit(buttons, frame, numpad, k as int);
        assert(key_hit(buttons[k as int], frame, numpad));
    }
}

/// From any hit, the first hit at or before it.
proof fn lemma_smallest_hit(buttons: Seq<PieButton>, frame: FrameInput, numpad: bool, j: int) -> (f: int)
    requires
        0 <= j < buttons.len(),
        key_hit(buttons[j], frame, numpad),
    ensures
        0 <= f <= j,
        is_first_key_hit(buttons, frame, numpad, f),
    decreases j,
{
    if exists|i: int| 0 <= i < j && #[trigger] key_hit(buttons[i], frame, numpad) {
        let i = choose|i: int| 0 <= i < j && #[trigger] key_hit(buttons[i], frame, numpad);
        lemma_smallest_hit(buttons, frame, numpad, i)
    } else {
        j
    }
}

} // verus!

use egui_pie_menu::{
    dismiss_input_triggered, follows_pointer, key_selection, nearest_button, FrameInput, InputKey, PieButton,
    PieDirection, PieMenu, PieMenuDismissInput, PieMenuInput, PieMenuResponse, PointerButton,
    PointerReading, ShowBehavior,
};

fn buttons() -> Vec<PieButton> {
    vec![
        PieButton::new(PieDirection::North, "Copy".to_string()).with_mnemonic('c'),
        PieButton::new(PieDirection::East, "Redo".to_string()).with_mnemonic('r'),
        PieButton::new(PieDirection::South, "Delete".to_string()).with_mnemonic('d'),
        PieButton::new(PieDirection::West, "Undo".to_string()).with_mnemonic('u'),
    ]
}

fn quiet(now_ms: u64, key_down: bool) -> FrameInput {
    FrameInput {
        pressed_keys: vec![],
        clicked_buttons: vec![],
        pointer: None,
        key_down,
        now_ms,
    }
}

fn pointer(beyond_trigger: bool, beyond_show: bool, gaps: Vec<u32>) -> Option<PointerReading> {
    Some(PointerReading { beyond_trigger, beyond_show, angle_gaps: gaps })
}

#[test]
fn escape_dismisses_before_anything_else() {
    let mut menu = PieMenu::new();
    let input = PieMenuInput::default();
    let mut f = quiet(0, true);
    f.pressed_keys = vec![InputKey::Num(8), InputKey::Escape];
    assert_eq!(menu.show(&buttons(), &f, &input), PieMenuResponse::Dismissed);
    assert_eq!(menu.selected_index(), None);
}

#[test]
fn numpad_five_and_secondary_click_dismiss() {
    let input = PieMenuInput::default();
    let mut f = quiet(0, true);
    f.pressed_keys = vec![InputKey::Num(5)];
    assert!(dismiss_input_triggered(&input, &f));
    let mut f = quiet(0, true);
    f.clicked_buttons = vec![PointerButton::Secondary];
    assert_eq!(PieMenu::new().show(&buttons(), &f, &input), PieMenuResponse::Dismissed);
}

#[test]
fn custom_dismiss_inputs() {
    let mut input = PieMenuInput::default();
    input.dismiss_inputs = vec![PieMenuDismissInput::Key(InputKey::Letter('q'))];
    let mut f = quiet(0, true);
    f.pressed_keys = vec![InputKey::Escape];
    assert!(!dismiss_input_triggered(&input, &f));
    f.pressed_keys = vec![InputKey::Letter('q')];
    assert!(dismiss_input_triggered(&input, &f));
    input.dismiss_inputs = vec![];
    assert!(!dismiss_input_triggered(&input, &f));
}

#[test]
fn numpad_key_selects_its_direction() {
    let mut menu = PieMenu::new();
    let input = PieMenuInput::default();
    let mut f = quiet(0, true);
    f.pressed_keys = vec![InputKey::Num(2)];
    assert_eq!(menu.show(&buttons(), &f, &input), PieMenuResponse::Selected(2));
}

#[test]
fn numpad_key_without_button_does_nothing() {
    let mut menu = PieMenu::new();
    let input = PieMenuInput::default();
    let mut f = quiet(0, true);
    f.pressed_keys = vec![InputKey::Num(9)];
    assert_eq!(menu.show(&buttons(), &f, &input), PieMenuResponse::NoAction);
}

#[test]
fn numpad_keys_can_be_switched_off() {
    let mut menu = PieMenu::new();
    let mut input = PieMenuInput::default();
    input.use_numpad_keys = false;
    let mut f = quiet(0, true);
    f.pressed_keys = vec![InputKey::Num(8)];
    assert_eq!(menu.show(&buttons(), &f, &input), PieMenuResponse::NoAction);
}

#[test]
fn numpad_wins_over_mnemonic() {
    let input = PieMenuInput::default();
    let mut f = quiet(0, true);
    f.pressed_keys = vec![InputKey::Letter('u'), InputKey::Num(6)];
    assert_eq!(PieMenu::new().show(&buttons(), &f, &input), PieMenuResponse::Selected(1));
}

#[test]
fn mnemonic_key_selects_first_matching_button() {
    let input = PieMenuInput::default();
    let mut f = quiet(0, true);
    f.pressed_keys = vec![InputKey::Letter('d')];
    assert_eq!(PieMenu::new().show(&buttons(), &f, &input), PieMenuResponse::Selected(2));
    let twice = vec![
        PieButton::new(PieDirection::North, "A".to_string()).with_mnemonic('x'),
        PieButton::new(PieDirection::South, "B".to_string()).with_mnemonic('X'),
    ];
    f.pressed_keys = vec![InputKey::Letter('x')];
    assert_eq!(key_selection(&twice, &f, false), Some(0));
}

#[test]
fn mnemonic_keys_can_be_switched_off() {
    let mut input = PieMenuInput::default();
    input.use_mnemonic_keys = false;
    let mut f = quiet(0, true);
    f.pressed_keys = vec![InputKey::Letter('d')];
    assert_eq!(PieMenu::new().show(&buttons(), &f, &input), PieMenuResponse::NoAction);
}

#[test]
fn nearest_button_first_minimum() {
    assert_eq!(nearest_button(&vec![]), None);
    assert_eq!(nearest_button(&vec![7]), Some(0));
    assert_eq!(nearest_button(&vec![9, 3, 5, 3]), Some(1));
    assert_eq!(nearest_button(&vec![4, 4]), Some(0));
    assert_eq!(nearest_button(&vec![8, 6, 1]), Some(2));
}

#[test]
fn hover_follows_pointer_beyond_trigger() {
    let mut menu = PieMenu::new();
    let input = PieMenuInput::default();
    let mut f = quiet(0, true);
    f.pointer = pointer(true, true, vec![30, 2, 40, 50]);
    assert_eq!(menu.show(&buttons(), &f, &input), PieMenuResponse::NoAction);
    assert_eq!(menu.selected_index(), Some(1));
    assert!(menu.is_shown());
    f.pointer = pointer(false, true, vec![30, 2, 40, 50]);
    menu.show(&buttons(), &f, &input);
    assert_eq!(menu.selected_index(), None);
    f.pointer = None;
    menu.show(&buttons(), &f, &input);
    assert_eq!(menu.selected_index(), None);
}

#[test]
fn primary_click_selects_hovered_button() {
    let mut menu = PieMenu::new();
    let input = PieMenuInput::default();
    let mut f = quiet(0, true);
    f.pointer = pointer(true, true, vec![30, 20, 1, 50]);
    menu.show(&buttons(), &f, &input);
    f.clicked_buttons = vec![PointerButton::Primary];
    assert_eq!(menu.show(&buttons(), &f, &input), PieMenuResponse::Selected(2));
}

#[test]
fn primary_click_in_centre_or_without_pointer() {
    let mut menu = PieMenu::new();
    let input = PieMenuInput::default();
    let mut f = quiet(0, true);
    f.clicked_buttons = vec![PointerButton::Primary];
    f.pointer = pointer(false, false, vec![1, 2, 3, 4]);
    assert_eq!(menu.show(&buttons(), &f, &input), PieMenuResponse::NoAction);
    f.pointer = None;
    assert_eq!(menu.show(&buttons(), &f, &input), PieMenuResponse::Dismissed);
}

#[test]
fn primary_click_ignored_when_selection_by_release_only() {
    let mut menu = PieMenu::new();
    let mut input = PieMenuInput::default();
    input.select_on_primary_click = false;
    let mut f = quiet(0, true);
    f.clicked_buttons = vec![PointerButton::Primary];
    assert_eq!(menu.show(&buttons(), &f, &input), PieMenuResponse::NoAction);
}

#[test]
fn release_over_button_selects_it() {
    let mut menu = PieMenu::new();
    let input = PieMenuInput::default();
    let mut f = quiet(0, true);
    f.pointer = pointer(true, true, vec![30, 20, 40, 5]);
    assert_eq!(menu.show(&buttons(), &f, &input), PieMenuResponse::NoAction);
    f.key_down = false;
    assert_eq!(menu.show(&buttons(), &f, &input), PieMenuResponse::Selected(3));
}

#[test]
fn release_in_centre_dismisses() {
    let mut menu = PieMenu::new();
    let input = PieMenuInput::default();
    let mut f = quiet(0, true);
    f.pointer = pointer(true, true, vec![30, 20, 40, 5]);
    menu.show(&buttons(), &f, &input);
    f.pointer = pointer(false, true, vec![30, 20, 40, 5]);
    f.key_down = false;
    assert_eq!(menu.show(&buttons(), &f, &input), PieMenuResponse::Dismissed);
}

#[test]
fn release_without_pointer_after_showing_is_answered_once() {
    let mut menu = PieMenu::new();
    let input = PieMenuInput::default();
    let mut f = quiet(0, true);
    f.pointer = pointer(true, true, vec![30, 20, 40, 5]);
    menu.show(&buttons(), &f, &input);
    let f = quiet(10, false);
    assert_eq!(menu.show(&buttons(), &f, &input), PieMenuResponse::NoAction);
    assert_eq!(menu.show(&buttons(), &f, &input), PieMenuResponse::NoAction);
}

#[test]
fn quick_tap_then_double_tap() {
    let mut menu = PieMenu::new();
    let input = PieMenuInput::default();
    menu.open();
    assert_eq!(menu.show(&buttons(), &quiet(1000, true), &input), PieMenuResponse::NoAction);
    assert_eq!(menu.show(&buttons(), &quiet(1050, false), &input), PieMenuResponse::QuickTap);
    menu.open();
    assert_eq!(menu.show(&buttons(), &quiet(1400, false), &input), PieMenuResponse::DoubleTap);
    menu.open();
    assert_eq!(menu.show(&buttons(), &quiet(1500, false), &input), PieMenuResponse::QuickTap);
}

#[test]
fn taps_too_far_apart_are_two_quick_taps() {
    let mut menu = PieMenu::new();
    let input = PieMenuInput::default();
    assert_eq!(menu.show(&buttons(), &quiet(1000, false), &input), PieMenuResponse::QuickTap);
    menu.open();
    assert_eq!(menu.show(&buttons(), &quiet(1401, false), &input), PieMenuResponse::QuickTap);
    menu.open();
    assert_eq!(menu.show(&buttons(), &quiet(1801, false), &input), PieMenuResponse::DoubleTap);
}

#[test]
fn tap_is_answered_once_per_opening() {
    let mut menu = PieMenu::new();
    let input = PieMenuInput::default();
    assert_eq!(menu.show(&buttons(), &quiet(1000, false), &input), PieMenuResponse::QuickTap);
    assert_eq!(menu.show(&buttons(), &quiet(1010, false), &input), PieMenuResponse::NoAction);
}

#[test]
fn no_tap_once_shown() {
    let mut menu = PieMenu::new();
    let input = PieMenuInput::default();
    let mut f = quiet(0, true);
    f.pointer = pointer(false, true, vec![1, 2, 3, 4]);
    menu.show(&buttons(), &f, &input);
    assert!(menu.is_shown());
    f.pointer = None;
    f.key_down = false;
    assert_eq!(menu.show(&buttons(), &f, &input), PieMenuResponse::NoAction);
}

#[test]
fn open_resets_but_keeps_last_tap() {
    let mut menu = PieMenu::new();
    let input = PieMenuInput::default();
    let mut f = quiet(0, true);
    f.pointer = pointer(true, true, vec![3, 2, 1, 0]);
    menu.show(&buttons(), &f, &input);
    assert_eq!(menu.selected_index(), Some(3));
    menu.open();
    assert_eq!(menu.selected_index(), None);
    assert!(!menu.is_shown());
}

#[test]
fn default_menu_is_new_menu() {
    let menu = PieMenu::default();
    assert_eq!(menu.selected_index(), None);
    assert!(!menu.is_shown());
}

#[test]
fn menu_drawn_once_shown_on_frames_that_follow_the_pointer() {
    let mut menu = PieMenu::new();
    let input = PieMenuInput::default();
    let mut f = quiet(0, true);
    f.pointer = pointer(false, false, vec![1, 2, 3, 4]);
    assert!(follows_pointer(&input, &buttons(), &f));
    menu.show(&buttons(), &f, &input);
    assert!(!menu.draws_menu(true));
    f.pointer = pointer(true, true, vec![1, 2, 3, 4]);
    menu.show(&buttons(), &f, &input);
    assert!(menu.draws_menu(true));
    // The release that selects is still drawn.
    f.key_down = false;
    assert!(follows_pointer(&input, &buttons(), &f));
    assert_eq!(menu.show(&buttons(), &f, &input), PieMenuResponse::Selected(0));
    assert!(menu.draws_menu(true));
    // A key that selects is not.
    f.pressed_keys = vec![InputKey::Num(8)];
    assert!(!follows_pointer(&input, &buttons(), &f));
    f.pressed_keys = vec![InputKey::Escape];
    assert!(!follows_pointer(&input, &buttons(), &f));
    f.pressed_keys = vec![];
    f.clicked_buttons = vec![PointerButton::Primary];
    assert!(!follows_pointer(&input, &buttons(), &f));
}

#[test]
fn stale_selection_is_replaced_by_hover() {
    let mut menu = PieMenu::new();
    let input = PieMenuInput::default();
    let mut f = quiet(0, true);
    f.pointer = pointer(true, true, vec![9, 9, 1, 9]);
    menu.show(&buttons(), &f, &input);
    assert_eq!(menu.selected_index(), Some(2));
    let two = vec![
        PieButton::new(PieDirection::North, "A".to_string()),
        PieButton::new(PieDirection::South, "B".to_string()),
    ];
    f.pointer = pointer(true, true, vec![5, 4]);
    menu.show(&two, &f, &input);
    assert_eq!(menu.selected_index(), Some(1));
}

#[test]
fn click_never_selects_outside_this_frames_buttons() {
    let mut menu = PieMenu::new();
    let input = PieMenuInput::default();
    let mut f = quiet(0, true);
    f.pointer = pointer(true, true, vec![9, 9, 9, 1]);
    menu.show(&buttons(), &f, &input);
    assert_eq!(menu.selected_index(), Some(3));
    let one = vec![PieButton::new(PieDirection::North, "A".to_string())];
    f.clicked_buttons = vec![PointerButton::Primary];
    assert_eq!(menu.show(&one, &f, &input), PieMenuResponse::NoAction);
}

#[test]
fn hover_beyond_the_buttons_is_ignored() {
    let mut menu = PieMenu::new();
    let input = PieMenuInput::default();
    let mut f = quiet(0, true);
    f.pointer = pointer(true, true, vec![9, 9, 9, 9, 1]);
    menu.show(&buttons(), &f, &input);
    assert_eq!(menu.selected_index(), None);
}

#[test]
fn instant_mode_shows_at_once_and_never_taps() {
    let mut menu = PieMenu::new();
    let mut input = PieMenuInput::default();
    input.show_behavior = ShowBehavior::Instant;
    assert_eq!(menu.show(&buttons(), &quiet(0, true), &input), PieMenuResponse::NoAction);
    assert!(menu.is_shown());
    assert_eq!(menu.show(&buttons(), &quiet(10, false), &input), PieMenuResponse::NoAction);
    menu.open();
    assert_eq!(menu.show(&buttons(), &quiet(20, false), &input), PieMenuResponse::NoAction);
}

#[test]
fn double_tap_window_includes_its_end() {
    let mut menu = PieMenu::new();
    let input = PieMenuInput::default();
    assert_eq!(menu.show(&buttons(), &quiet(1000, false), &input), PieMenuResponse::QuickTap);
    menu.open();
    assert_eq!(menu.show(&buttons(), &quiet(1400, false), &input), PieMenuResponse::DoubleTap);
}

#[test]
fn release_acted_on_once_per_opening() {
    let mut menu = PieMenu::new();
    let input = PieMenuInput::default();
    let mut f = quiet(0, true);
    f.pointer = pointer(true, true, vec![1, 2, 3, 4]);
    menu.show(&buttons(), &f, &input);
    assert_eq!(menu.show(&buttons(), &quiet(5, false), &input), PieMenuResponse::NoAction);
    let mut g = quiet(6, true);
    g.pointer = pointer(true, true, vec![4, 3, 2, 1]);
    menu.show(&buttons(), &g, &input);
    g.key_down = false;
    assert_eq!(menu.show(&buttons(), &g, &input), PieMenuResponse::NoAction);
    g.pointer = pointer(false, true, vec![4, 3, 2, 1]);
    assert_eq!(menu.show(&buttons(), &g, &input), PieMenuResponse::NoAction);
}

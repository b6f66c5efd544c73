use egui_pie_menu::{
    char_to_key, direction_numpad, draws_center_highlight, has_duplicate_mnemonics,
    mnemonic_char_index, HighlightStep, InputKey, PieButton, PieDirection, PieMenuAnimations,
    PieMenuDismissInput, PieMenuHighlightShape, PieMenuInput, PointerButton, ShowBehavior,
};

const ALL_DIRECTIONS: [PieDirection; 8] = [
    PieDirection::North,
    PieDirection::NorthEast,
    PieDirection::East,
    PieDirection::SouthEast,
    PieDirection::South,
    PieDirection::SouthWest,
    PieDirection::West,
    PieDirection::NorthWest,
];

#[test]
fn numpad_layout_matches_keypad() {
    assert_eq!(direction_numpad(&PieDirection::North), InputKey::Num(8));
    assert_eq!(direction_numpad(&PieDirection::NorthEast), InputKey::Num(9));
    assert_eq!(direction_numpad(&PieDirection::East), InputKey::Num(6));
    assert_eq!(direction_numpad(&PieDirection::SouthEast), InputKey::Num(3));
    assert_eq!(direction_numpad(&PieDirection::South), InputKey::Num(2));
    assert_eq!(direction_numpad(&PieDirection::SouthWest), InputKey::Num(1));
    assert_eq!(direction_numpad(&PieDirection::West), InputKey::Num(4));
    assert_eq!(direction_numpad(&PieDirection::NorthWest), InputKey::Num(7));
}

#[test]
fn numpad_digits_are_distinct_and_skip_five() {
    for (i, a) in ALL_DIRECTIONS.iter().enumerate() {
        assert_ne!(direction_numpad(a), InputKey::Num(5));
        for b in ALL_DIRECTIONS.iter().skip(i + 1) {
            assert_ne!(direction_numpad(a), direction_numpad(b));
        }
    }
}

#[test]
fn char_to_key_ignores_case() {
    assert_eq!(char_to_key('c'), Some(InputKey::Letter('c')));
    assert_eq!(char_to_key('C'), Some(InputKey::Letter('c')));
    assert_eq!(char_to_key('a'), Some(InputKey::Letter('a')));
    assert_eq!(char_to_key('Z'), Some(InputKey::Letter('z')));
    for c in 'a'..='z' {
        assert_eq!(char_to_key(c), char_to_key(c.to_ascii_uppercase()));
    }
}

#[test]
fn char_to_key_rejects_non_letters() {
    assert_eq!(char_to_key('1'), None);
    assert_eq!(char_to_key('@'), None);
    assert_eq!(char_to_key('['), None);
    assert_eq!(char_to_key('`'), None);
    assert_eq!(char_to_key('{'), None);
    assert_eq!(char_to_key('é'), None);
    assert_eq!(char_to_key(' '), None);
}

#[test]
fn mnemonic_index_is_case_insensitive() {
    assert_eq!(mnemonic_char_index("Copy", 'c'), Some(0));
    assert_eq!(mnemonic_char_index("Copy", 'C'), Some(0));
    assert_eq!(mnemonic_char_index("Redo", 'd'), Some(2));
    assert_eq!(mnemonic_char_index("Paste Special", 's'), Some(2));
    assert_eq!(mnemonic_char_index("Save As…", 'a'), Some(1));
}

#[test]
fn mnemonic_index_absent_character() {
    assert_eq!(mnemonic_char_index("Copy", 'x'), None);
    assert_eq!(mnemonic_char_index("", 'c'), None);
}

#[test]
fn mnemonic_index_counts_characters_not_bytes() {
    assert_eq!(mnemonic_char_index("éclair", 'l'), Some(2));
}

#[test]
fn duplicate_mnemonics_detected_ignoring_case() {
    let buttons = vec![
        PieButton::new(PieDirection::North, "Copy".to_string()).with_mnemonic('c'),
        PieButton::new(PieDirection::South, "Cut".to_string()).with_mnemonic('C'),
    ];
    assert!(has_duplicate_mnemonics(&buttons));
}

#[test]
fn distinct_mnemonics_not_flagged() {
    let buttons = vec![
        PieButton::new(PieDirection::North, "Copy".to_string()).with_mnemonic('c'),
        PieButton::new(PieDirection::East, "Redo".to_string()).with_mnemonic('r'),
        PieButton::new(PieDirection::South, "Delete".to_string()),
        PieButton::new(PieDirection::West, "One".to_string()).with_mnemonic('1'),
        PieButton::new(PieDirection::NorthWest, "Two".to_string()).with_mnemonic('1'),
    ];
    assert!(!has_duplicate_mnemonics(&buttons));
    assert!(!has_duplicate_mnemonics(&[]));
}

#[test]
fn button_builders() {
    let b = PieButton::new(PieDirection::East, "Redo".to_string());
    assert_eq!(b.direction, PieDirection::East);
    assert_eq!(b.label, "Redo");
    assert_eq!(b.mnemonic, None);
    assert_eq!(b.color, egui::Color32::from_rgb(80, 80, 80));
    let b = b.with_color(egui::Color32::RED).with_mnemonic('r');
    assert_eq!(b.color, egui::Color32::RED);
    assert_eq!(b.mnemonic, Some('r'));
    assert_eq!(b.label, "Redo");
}

#[test]
fn highlight_parts_per_shape() {
    let table = [
        (PieMenuHighlightShape::Arc, true, false, false),
        (PieMenuHighlightShape::Slice, false, true, false),
        (PieMenuHighlightShape::Circle, false, false, true),
        (PieMenuHighlightShape::ArcSlice, true, true, false),
        (PieMenuHighlightShape::ArcCircle, true, false, true),
        (PieMenuHighlightShape::ArcSliceCircle, true, true, true),
        (PieMenuHighlightShape::SliceCircle, false, true, true),
        (PieMenuHighlightShape::NoHighlight, false, false, false),
    ];
    for (shape, arc, slice, circle) in table {
        assert_eq!(shape.has_arc(), arc);
        assert_eq!(shape.has_slice(), slice);
        assert_eq!(shape.has_circle(), circle);
    }
}

#[test]
fn highlight_steps_in_paint_order() {
    assert_eq!(
        PieMenuHighlightShape::ArcSliceCircle.steps(),
        vec![HighlightStep::Slice, HighlightStep::Arc, HighlightStep::Circle]
    );
    assert_eq!(PieMenuHighlightShape::ArcSlice.steps(), vec![HighlightStep::Slice, HighlightStep::Arc]);
    assert_eq!(PieMenuHighlightShape::ArcCircle.steps(), vec![HighlightStep::Arc, HighlightStep::Circle]);
    assert_eq!(PieMenuHighlightShape::Circle.steps(), vec![HighlightStep::Circle]);
    assert!(PieMenuHighlightShape::NoHighlight.steps().is_empty());
}

#[test]
fn center_highlight_needs_shape_and_switch() {
    let on = PieMenuAnimations::default();
    let off = PieMenuAnimations { center_highlight_show: false, ..on };
    assert!(draws_center_highlight(PieMenuHighlightShape::Slice, on));
    assert!(!draws_center_highlight(PieMenuHighlightShape::NoHighlight, on));
    assert!(!draws_center_highlight(PieMenuHighlightShape::Slice, off));
}

#[test]
fn default_settings() {
    let a = PieMenuAnimations::default();
    assert!(!a.center_highlight_snapping);
    assert!(a.center_highlight_show);
    let i = PieMenuInput::default();
    assert_eq!(i.show_behavior, ShowBehavior::OnMovement);
    assert!(i.use_numpad_keys);
    assert!(i.use_mnemonic_keys);
    assert!(i.select_on_primary_click);
    assert_eq!(i.double_tap_window_ms, 400);
    assert_eq!(
        i.dismiss_inputs,
        vec![
            PieMenuDismissInput::Key(InputKey::Escape),
            PieMenuDismissInput::Key(InputKey::Num(5)),
            PieMenuDismissInput::PointerButton(PointerButton::Secondary),
        ]
    );
}
